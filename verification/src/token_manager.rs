//! Keeps the session's token alive: checks it, renews it when it is about
//! to expire, and ends the session when it has.

use vstd::prelude::*;

verus! {

/// Where the session stands.
#[derive(PartialEq, Eq, Structural, Clone, Copy)]
pub enum TokenStatus {
    Checking,
    Valid,
    Expired,
    Refreshing,
    Refreshed,
}

/// What the server says of the token; a field it left out is `None`.
pub struct TokenCheck {
    pub is_token_valid: Option<bool>,
    pub token_days_until_expiry: Option<i64>,
}

/// What the token keeper reacts to; replies arrive decoded, `Err` holding
/// the message of a failed reply.
pub enum Msg {
    CheckToken,
    CheckTokenResult(Result<TokenCheck, String>),
    NewToken,
    NewTokenResult(Result<String, String>),
    TokenExpired,
}

/// A request to the server, to the browser's storage or to the page.
pub enum TokenRequest {
    Check,
    Renew,
    /// Store the token (`None`: forget it).
    SetToken(Option<String>),
    /// Forget the signed-in user.
    ClearLoggedUser,
    /// Tell the page that the session has expired.
    NotifyExpired,
}

/// What a transition asks for.
pub enum Action {
    Query(TokenRequest),
    Send(Msg),
}

/// The state of the token keeper.
pub struct TokenManager {
    /// Whether the page wants to hear of an expired session.
    pub has_on_expired: bool,
    pub status: TokenStatus,
}

/// No action.
pub open spec fn none() -> Seq<Action> {
    Seq::<Action>::empty()
}

/// A valid token is renewed when at most this many days are left.
pub open spec fn renew_days() -> i64 {
    3
}

/// The transition: from `s`, message `m` (with `has_token` telling whether
/// a token is stored) leads to `t` and asks for `acts`.
pub open spec fn next(s: TokenManager, m: Msg, has_token: bool, t: TokenManager, acts: Seq<Action>) -> bool {
    match m {
        Msg::CheckToken => if has_token {
            t == (TokenManager { status: TokenStatus::Refreshing, ..s }) && acts == seq![Action::Query(TokenRequest::Check)]
        } else {
            t == s && acts == seq![Action::Send(Msg::TokenExpired)]
        },
        Msg::CheckTokenResult(Ok(check)) => {
            let valid = match check.is_token_valid {
                Some(v) => v,
                None => false,
            };
            let days = match check.token_days_until_expiry {
                Some(d) => d,
                None => 0,
            };
            if !valid {
                t == s && acts == seq![Action::Send(Msg::TokenExpired)]
            } else if days <= renew_days() {
                t == (TokenManager { status: TokenStatus::Refreshing, ..s }) && acts == seq![Action::Send(Msg::NewToken)]
            } else {
                t == (TokenManager { status: TokenStatus::Valid, ..s }) && acts == none()
            }
        },
        Msg::CheckTokenResult(Err(_)) => t == s && acts == none(),
        Msg::NewToken => t == s && acts == seq![Action::Query(TokenRequest::Renew)],
        Msg::NewTokenResult(Ok(token)) => t == (TokenManager { status: TokenStatus::Refreshed, ..s })
            && acts == seq![Action::Query(TokenRequest::SetToken(Some(token)))],
        Msg::NewTokenResult(Err(_)) => t == s && acts == none(),
        Msg::TokenExpired => t == (TokenManager { status: TokenStatus::Expired, ..s })
            && acts == seq![Action::Query(TokenRequest::SetToken(None)), Action::Query(TokenRequest::ClearLoggedUser)]
                + (if s.has_on_expired { seq![Action::Query(TokenRequest::NotifyExpired)] } else { none() }),
    }
}

/// Renewal law: after a check, a token is renewed exactly when the server
/// holds it valid with at most three days left, kept as valid when more
/// days are left, and the session ends when it is not valid.
pub proof fn lemma_check_outcome(s: TokenManager, check: TokenCheck, has_token: bool, t: TokenManager, acts: Seq<Action>)
    requires
        next(s, Msg::CheckTokenResult(Ok(check)), has_token, t, acts),
    ensures
        check.is_token_valid == Some(true) && (check.token_days_until_expiry.is_none()
            || check.token_days_until_expiry.unwrap() <= 3) ==> acts == seq![Action::Send(Msg::NewToken)]
            && t.status == TokenStatus::Refreshing,
        check.is_token_valid == Some(true) && check.token_days_until_expiry.is_some()
            && check.token_days_until_expiry.unwrap() > 3 ==> acts.len() == 0 && t.status == TokenStatus::Valid,
        check.is_token_valid != Some(true) ==> acts == seq![Action::Send(Msg::TokenExpired)] && t == s,
{
}

/// Expiry law: an expired session always forgets the token and the user.
pub proof fn lemma_expiry_clears_session(s: TokenManager, has_token: bool, t: TokenManager, acts: Seq<Action>)
    requires
        next(s, Msg::TokenExpired, has_token, t, acts),
    ensures
        t.status == TokenStatus::Expired,
        acts[0] == Action::Query(TokenRequest::SetToken(None)),
        acts[1] == Action::Query(TokenRequest::ClearLoggedUser),
{
}

/// Renewal law: asking for a new token asks for exactly one request, the
/// renewal of the token, and changes nothing else.
pub proof fn lemma_new_token_renews(s: TokenManager, has_token: bool, t: TokenManager, acts: Seq<Action>)
    requires
        next(s, Msg::NewToken, has_token, t, acts),
    ensures
        acts == seq![Action::Query(TokenRequest::Renew)],
        t == s,
{
}

/// Request law: of all messages, only `NewToken` asks for a renewal, only
/// `CheckToken` asks for a check, and a token is stored only from a
/// renewal's reply, and then that reply's token.
pub proof fn lemma_renewal_requests_and_storage(
    s: TokenManager,
    m: Msg,
    has_token: bool,
    t: TokenManager,
    acts: Seq<Action>,
    i: int,
)
    requires
        next(s, m, has_token, t, acts),
        0 <= i < acts.len(),
    ensures
        acts[i] == Action::Query(TokenRequest::Renew) ==> m is NewToken,
        acts[i] == Action::Query(TokenRequest::Check) ==> m is CheckToken,
        acts[i] matches Action::Query(TokenRequest::SetToken(Some(x))) ==> m == Msg::NewTokenResult(Ok(x)),
{
}

/// Keep-alive law: when a check finds the token valid with at most three
/// days left, the next step asks for a renewal, and the renewal's reply
/// stores the fresh token.
pub proof fn lemma_near_expiry_renews(
    s: TokenManager,
    days: i64,
    has_token: bool,
    t: TokenManager,
    a1: Seq<Action>,
    u: TokenManager,
    a2: Seq<Action>,
    fresh: String,
    w: TokenManager,
    a3: Seq<Action>,
)
    requires
        days <= 3,
        next(s, Msg::CheckTokenResult(Ok(TokenCheck { is_token_valid: Some(true), token_days_until_expiry: Some(days) })), has_token, t, a1),
        next(t, Msg::NewToken, has_token, u, a2),
        next(u, Msg::NewTokenResult(Ok(fresh)), has_token, w, a3),
    ensures
        a1 == seq![Action::Send(Msg::NewToken)],
        a2 == seq![Action::Query(TokenRequest::Renew)],
        a3 == seq![Action::Query(TokenRequest::SetToken(Some(fresh)))],
        w.status == TokenStatus::Refreshed,
{
}

impl TokenManager {
    /// The keeper as first created: checking.
    pub fn new(has_on_expired: bool) -> (s: Self)
        ensures
            s.has_on_expired == has_on_expired,
            s.status == TokenStatus::Checking,
    {
        TokenManager { has_on_expired, status: TokenStatus::Checking }
    }

    /// What showing the keeper asks for: a check, on the first showing.
    pub fn on_render(&self, first_render: bool) -> (acts: Vec<Action>)
        ensures
            acts@ == (if first_render { seq![Action::Send(Msg::CheckToken)] } else { none() }),
    {
        let mut acts: Vec<Action> = Vec::new();
        if first_render {
            acts.push(Action::Send(Msg::CheckToken));
        }
        acts
    }

    /// Handles one message; see `next`. It is drawn again after each.
    pub fn update(&mut self, msg: Msg, has_token: bool) -> (acts: Vec<Action>)
        ensures
            next(*old(self), msg, has_token, *final(self), acts@),
    {
        let mut acts: Vec<Action> = Vec::new();
        match msg {
            Msg::CheckToken => {
                if !has_token {
                    acts.push(Action::Send(Msg::TokenExpired));
                    return acts;
                }
                self.status = TokenStatus::Refreshing;
                acts.push(Action::Query(TokenRequest::Check));
            },
            Msg::CheckTokenResult(res) => match res {
                Ok(check) => {
                    let valid = match check.is_token_valid {
                        Some(v) => v,
                        None => false,
                    };
                    let days = match check.token_days_until_expiry {
                        Some(d) => d,
                        None => 0,
                    };
                    if !valid {
                        acts.push(Action::Send(Msg::TokenExpired));
                    } else if days <= 3 {
                        acts.push(Action::Send(Msg::NewToken));
                        self.status = TokenStatus::Refreshing;
                    } else {
                        self.status = TokenStatus::Valid;
                    }
                },
                Err(_) => {},
            },
            Msg::NewToken => {
                acts.push(Action::Query(TokenRequest::Renew));
            },
            Msg::NewTokenResult(res) => match res {
                Ok(token) => {
                    acts.push(Action::Query(TokenRequest::SetToken(Some(token))));
                    self.status = TokenStatus::Refreshed;
                },
                Err(_) => {},
            },
            Msg::TokenExpired => {
                self.status = TokenStatus::Expired;
                acts.push(Action::Query(TokenRequest::SetToken(None)));
                acts.push(Action::Query(TokenRequest::ClearLoggedUser));
                if self.has_on_expired {
                    acts.push(Action::Query(TokenRequest::NotifyExpired));
                }
                proof {
                    let base = seq![Action::Query(TokenRequest::SetToken(None)), Action::Query(TokenRequest::ClearLoggedUser)];
                    assert(acts@ =~= base + (if old(self).has_on_expired {
                        seq![Action::Query(TokenRequest::NotifyExpired)]
                    } else {
                        none()
                    }));
                }
            },
        }
        acts
    }
}

} // verus!
