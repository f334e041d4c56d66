//! Values shared by many pages: parsed numbers, clock readings and the
//! small decisions that every settings page repeats.

use vstd::prelude::*;

verus! {

/// Whether `c` is an ASCII decimal digit.
pub open spec fn is_digit(c: char) -> bool {
    '0' <= c && c <= '9'
}

/// The number written by a run of decimal digits (0 for the empty run).
pub open spec fn digits_value(s: Seq<char>) -> int
    decreases s.len(),
{
    if s.len() == 0 {
        0
    } else {
        digits_value(s.drop_last()) * 10 + (s.last() as int - '0' as int)
    }
}

/// A non-empty run of decimal digits.
pub open spec fn is_digit_run(s: Seq<char>) -> bool {
    s.len() > 0 && forall|i: int| 0 <= i < s.len() ==> is_digit(#[trigger] s[i])
}

/// The value that `str::parse::<i64>` gives: an optional `+` or `-` sign
/// followed by decimal digits only, whose value fits in an `i64`.
pub open spec fn decimal_i64(s: Seq<char>) -> Option<i64> {
    let negative = s.len() > 0 && s[0] == '-';
    let signed = s.len() > 0 && (s[0] == '-' || s[0] == '+');
    let body = if signed { s.drop_first() } else { s };
    let value = if negative { -digits_value(body) } else { digits_value(body) };
    if is_digit_run(body) && i64::MIN <= value && value <= i64::MAX {
        Some(value as i64)
    } else {
        None
    }
}

/// The value that `str::parse::<usize>` gives: an optional `+` sign
/// followed by decimal digits only, whose value fits in a `usize`.
pub open spec fn decimal_usize(s: Seq<char>) -> Option<usize> {
    let body = if s.len() > 0 && s[0] == '+' { s.drop_first() } else { s };
    if is_digit_run(body) && digits_value(body) <= usize::MAX {
        Some(digits_value(body) as usize)
    } else {
        None
    }
}

/// A longer run of digits is worth at least as much as its beginning.
proof fn lemma_digits_grow(s: Seq<char>, k: int)
    requires
        0 <= k <= s.len(),
        forall|i: int| 0 <= i < s.len() ==> is_digit(#[trigger] s[i]),
    ensures
        digits_value(s.subrange(0, k)) <= digits_value(s),
        0 <= digits_value(s.subrange(0, k)),
    decreases s.len(),
{
    if s.len() > 0 {
        if k == s.len() {
            assert(s.subrange(0, k) =~= s);
            lemma_digits_grow(s.drop_last(), s.len() - 1);
            assert(s.drop_last().subrange(0, s.len() - 1) =~= s.drop_last());
        } else {
            lemma_digits_grow(s.drop_last(), k);
            assert(s.drop_last().subrange(0, k) =~= s.subrange(0, k));
            lemma_digits_grow(s.drop_last(), s.len() - 1);
            assert(s.drop_last().subrange(0, s.len() - 1) =~= s.drop_last());
        }
    } else {
        assert(s.subrange(0, k) =~= s);
    }
}

/// The value of a run of decimal digits, where it fits in a `u64`.
fn digits_u64(body: &str) -> (r: Option<u64>)
    ensures
        match r {
            Some(v) => is_digit_run(body@) && v == digits_value(body@),
            None => !is_digit_run(body@) || digits_value(body@) > u64::MAX,
        },
{
    let n = body.unicode_len();
    if n == 0 {
        return None;
    }
    let mut acc: u64 = 0;
    let mut i: usize = 0;
    assert(body@.subrange(0, 0) =~= Seq::<char>::empty());
    while i < n
        invariant
            n == body@.len(),
            i <= n,
            forall|k: int| 0 <= k < i ==> is_digit(#[trigger] body@[k]),
            acc == digits_value(body@.subrange(0, i as int)),
        decreases n - i,
    {
        let c = body.get_char(i);
        if !('0' <= c && c <= '9') {
            return None;
        }
        let d: u64 = (c as u32 - '0' as u32) as u64;
        assert(body@.subrange(0, i + 1).drop_last() =~= body@.subrange(0, i as int));
        assert(body@.subrange(0, i + 1).last() == c);
        if acc > (u64::MAX - d) / 10 {
            proof {
                assert(digits_value(body@.subrange(0, i + 1)) == acc * 10 + d);
                assert(acc * 10 + d > u64::MAX) by (nonlinear_arith)
                    requires
                        acc > (u64::MAX - d) / 10,
                        d <= 9;
                // the whole run is worth at least this much, or is no run
                if is_digit_run(body@) {
                    lemma_digits_grow(body@, i + 1);
                }
            }
            return None;
        }
        proof {
            assert(acc * 10 + d <= u64::MAX) by (nonlinear_arith)
                requires
                    acc <= (u64::MAX - d) / 10,
                    d <= 9;
        }
        acc = acc * 10 + d;
        i = i + 1;
    }
    assert(body@.subrange(0, n as int) =~= body@);
    Some(acc)
}

/// `str::parse::<i64>`: an optional `+` or `-` sign followed by decimal
/// digits only, whose value fits in an `i64`; see `decimal_i64`.
pub fn parse_i64(s: &str) -> (r: Option<i64>)
    ensures
        r == decimal_i64(s@),
{
    let n = s.unicode_len();
    let negative = n > 0 && s.get_char(0) == '-';
    let signed = n > 0 && (s.get_char(0) == '-' || s.get_char(0) == '+');
    let body = if signed { s.substring_char(1, n) } else { s.substring_char(0, n) };
    assert(s@.subrange(0, n as int) =~= s@);
    assert(signed ==> s@.subrange(1, n as int) =~= s@.drop_first());
    match digits_u64(body) {
        Some(v) => {
            if negative {
                if v <= 9_223_372_036_854_775_808 {
                    if v == 9_223_372_036_854_775_808 {
                        Some(i64::MIN)
                    } else {
                        Some(-(v as i64))
                    }
                } else {
                    None
                }
            } else if v <= 9_223_372_036_854_775_807 {
                Some(v as i64)
            } else {
                None
            }
        },
        None => None,
    }
}

/// `str::parse::<usize>`: an optional `+` followed by decimal digits only,
/// whose value fits in a `usize`; see `decimal_usize`.
pub fn parse_usize(s: &str) -> (r: Option<usize>)
    ensures
        r == decimal_usize(s@),
{
    let n = s.unicode_len();
    let signed = n > 0 && s.get_char(0) == '+';
    let body = if signed { s.substring_char(1, n) } else { s.substring_char(0, n) };
    assert(s@.subrange(0, n as int) =~= s@);
    assert(signed ==> s@.subrange(1, n as int) =~= s@.drop_first());
    match digits_u64(body) {
        Some(v) => {
            if v <= usize::MAX as u64 {
                Some(v as usize)
            } else {
                None
            }
        },
        None => None,
    }
}

/// The number in a select box or field, or 0 where it holds no number.
pub fn i64_or_zero(s: &str) -> (r: i64)
    ensures
        r == (match decimal_i64(s@) {
            Some(v) => v,
            None => 0,
        }),
{
    match parse_i64(s) {
        Some(v) => v,
        None => 0,
    }
}

/// The number in a select box or field, or 0 where it holds no number.
pub fn usize_or_zero(s: &str) -> (r: usize)
    ensures
        r == (match decimal_usize(s@) {
            Some(v) => v,
            None => 0,
        }),
{
    match parse_usize(s) {
        Some(v) => v,
        None => 0,
    }
}

/// The number in a select box, or `fallback` where it holds no number.
pub fn i64_or(s: &str, fallback: i64) -> (r: i64)
    ensures
        r == (match decimal_i64(s@) {
            Some(v) => v,
            None => fallback,
        }),
{
    match parse_i64(s) {
        Some(v) => v,
        None => fallback,
    }
}

/// The largest unix time, in seconds, that a chrono `DateTime<Utc>` can
/// hold: the last second of the year 262142, chrono's last year.
pub open spec fn max_timestamp() -> int {
    8_210_266_876_799
}

/// A moment as chrono's `DateTime<Utc>` holds it: whole seconds since the
/// unix epoch and the nanoseconds past them.
#[derive(PartialEq, Eq, Structural, Clone, Copy, Debug)]
pub struct Timestamp {
    pub secs: i64,
    pub nanos: u32,
}

/// The nanoseconds of a moment past the unix epoch.
pub open spec fn nanos_of(t: Timestamp) -> int {
    t.secs * 1_000_000_000 + t.nanos
}

/// `chrono::Utc::now`, read as seconds since the epoch and the nanoseconds
/// past them. Outside wasm chrono builds it from the system clock's
/// duration since the epoch (it panics before the epoch) through
/// `DateTime::from_timestamp(secs, subsec_nanos).unwrap()`, so the seconds
/// are not negative and lie within chrono's range, and the nanoseconds are
/// under a second; which moment it is depends on the clock and is left
/// unsaid. (On wasm chrono reads the browser's clock instead; this crate is
/// built for the host.)
#[verifier::external_body]
pub fn current_timestamp() -> (t: Timestamp)
    ensures
        0 <= t.secs <= max_timestamp(),
        t.nanos < 1_000_000_000,
{
    let now = chrono::Utc::now();
    Timestamp { secs: now.timestamp(), nanos: now.timestamp_subsec_nanos() }
}

/// The length in bytes (UTF-8) of a text, as `String::len` gives it.
pub open spec fn byte_len(s: Seq<char>) -> usize {
    vstd::utf8::encode_utf8(s).len() as usize
}

/// The unix time, in seconds, that `chrono` reads from a text in the form
/// `%Y-%m-%d %H:%M:%S` (taken as UTC), or `None` where it reads none.
pub uninterp spec fn date_time_secs(text: Seq<char>) -> Option<i64>;

/// `chrono::NaiveDateTime::parse_from_str(text, "%Y-%m-%d %H:%M:%S")`, read
/// as unix seconds (`and_utc().timestamp()`). The result is a function of
/// the text alone; which texts chrono accepts is its own grammar and is
/// left to the name.
#[verifier::external_body]
fn parse_date_time(text: &str) -> (r: Option<i64>)
    ensures
        r == date_time_secs(text@),
{
    match chrono::NaiveDateTime::parse_from_str(text, "%Y-%m-%d %H:%M:%S") {
        Ok(at) => Some(at.and_utc().timestamp()),
        Err(_) => None,
    }
}

/// The publication date that a date field holds: the start of that day,
/// read from the field's text followed by `" 00:00:00"`.
pub open spec fn publication_date_of(text: Seq<char>) -> Option<i64> {
    date_time_secs(text + " 00:00:00"@)
}

/// See `publication_date_of`.
pub fn parse_publication_date(text: &str) -> (r: Option<i64>)
    ensures
        r == publication_date_of(text@),
{
    let full = text.to_owned().concat(" 00:00:00");
    parse_date_time(full.as_str())
}

/// Files may be attached only to a saved object (its uuid is 36 bytes
/// long, the canonical form) and only when some file was chosen.
pub open spec fn upload_allowed(uuid: Seq<char>, file_count: nat) -> bool {
    byte_len(uuid) == 36 && file_count > 0
}

/// See `upload_allowed`.
pub fn can_upload(uuid: &String, filenames: &Vec<String>) -> (ok: bool)
    ensures
        ok == upload_allowed(uuid@, filenames@.len()),
{
    uuid.as_str().len() == 36 && filenames.len() > 0
}


/// The first `n` characters of a text (all of it where it is shorter).
pub open spec fn first_chars(s: Seq<char>, n: nat) -> Seq<char> {
    if s.len() <= n { s } else { s.subrange(0, n as int) }
}

/// See `first_chars`; this is what `format!("{:.*}", n, s)` shows.
pub fn first_chars_of(s: &str, n: usize) -> (r: String)
    ensures
        r@ == first_chars(s@, n as nat),
{
    let len = s.unicode_len();
    if len <= n {
        s.to_owned()
    } else {
        s.substring_char(0, n).to_owned()
    }
}

/// A file attached to a component, standard or service, as listed.
pub struct FileInfo {
    pub uuid: String,
    pub filename: String,
}

impl FileInfo {
    /// A copy of the entry.
    pub fn duplicate(&self) -> (r: Self)
        ensures
            r == *self,
    {
        FileInfo { uuid: self.uuid.clone(), filename: self.filename.clone() }
    }
}

/// A copy of a file list.
pub fn copy_files(files: &Vec<FileInfo>) -> (r: Vec<FileInfo>)
    ensures
        r@ == files@,
{
    let mut r: Vec<FileInfo> = Vec::new();
    let n = files.len();
    let mut i: usize = 0;
    while i < n
        invariant
            n == files@.len(),
            i <= n,
            r@ == files@.subrange(0, i as int),
        decreases n - i,
    {
        r.push(files[i].duplicate());
        assert(files@.subrange(0, i + 1) == files@.subrange(0, i as int).push(files@[i as int]));
        i = i + 1;
    }
    assert(files@.subrange(0, n as int) == files@);
    r
}

/// A file as the server offers it for download.
pub struct DownloadFile {
    pub uuid: String,
    pub hash: String,
    pub filename: String,
    pub filesize: u64,
    pub download_url: String,
}

impl DownloadFile {
    /// A copy of the entry.
    pub fn duplicate(&self) -> (r: Self)
        ensures
            r == *self,
    {
        DownloadFile {
            uuid: self.uuid.clone(),
            hash: self.hash.clone(),
            filename: self.filename.clone(),
            filesize: self.filesize,
            download_url: self.download_url.clone(),
        }
    }
}

/// A copy of a list of texts.
pub fn copy_texts(v: &Vec<String>) -> (r: Vec<String>)
    ensures
        r@ == v@,
{
    let mut r: Vec<String> = Vec::new();
    let n = v.len();
    let mut i: usize = 0;
    while i < n
        invariant
            n == v@.len(),
            i <= n,
            r@ == v@.subrange(0, i as int),
        decreases n - i,
    {
        r.push(v[i].clone());
        assert(v@.subrange(0, i + 1) == v@.subrange(0, i as int).push(v@[i as int]));
        i = i + 1;
    }
    assert(v@.subrange(0, n as int) == v@);
    r
}

/// Where the browser puts a file that the server has registered for upload.
pub struct UploadTicket {
    pub file_uuid: String,
    pub filename: String,
    pub upload_url: String,
}

/// An entry of a select box: an id and its label.
pub struct NamedId {
    pub id: usize,
    pub name: String,
}

/// A company as select boxes list it.
pub struct CompanyShort {
    pub uuid: String,
    pub shortname: String,
}

} // verus!
