//! What every request to the server carries besides its body.

use vstd::prelude::*;

verus! {

/// The headers of a request: the session's token as a bearer credential
/// where a token is kept, then the page language where one is set.
pub open spec fn headers_of(token: Option<Seq<char>>, lang: Option<Seq<char>>) -> Seq<(Seq<char>, Seq<char>)> {
    (match token {
        Some(t) => seq![("Authorization"@, "Bearer "@ + t)],
        None => Seq::empty(),
    }) + (match lang {
        Some(l) => seq![("Accept-Language"@, l)],
        None => Seq::empty(),
    })
}

/// The headers of a request; see `headers_of`.
pub fn query_headers(token: Option<String>, lang: Option<String>) -> (h: Vec<(String, String)>)
    ensures
        h@.map_values(|p: (String, String)| (p.0@, p.1@)) == headers_of(
            match token { Some(t) => Some(t@), None => None },
            match lang { Some(l) => Some(l@), None => None },
        ),
{
    let mut h: Vec<(String, String)> = Vec::new();
    let ghost tv = match &token { Some(t) => Some(t@), None => None::<Seq<char>> };
    let ghost lv = match &lang { Some(l) => Some(l@), None => None::<Seq<char>> };
    match token {
        Some(t) => {
            h.push(("Authorization".to_owned(), "Bearer ".to_owned().concat(t.as_str())));
        },
        None => {},
    }
    match lang {
        Some(l) => {
            h.push(("Accept-Language".to_owned(), l));
        },
        None => {},
    }
    assert(h@.map_values(|p: (String, String)| (p.0@, p.1@)) =~= headers_of(tv, lv));
    h
}

} // verus!
