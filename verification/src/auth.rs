//! The sign-in and sign-up pages.

use vstd::prelude::*;
use crate::route::AppRoute;

verus! {

/// The signed-in user in short.
pub struct SlimUser {
    pub uuid: String,
    pub username: String,
}

/// The data of a sign-in.
pub struct LoginInfo {
    pub username: String,
    pub password: String,
}

/// The data of a sign-up.
pub struct RegisterInfo {
    pub email: String,
    pub username: String,
    pub password: String,
}

/// A request to the server, to the browser's storage or to the application.
pub enum AuthRequest {
    Login(LoginInfo),
    Register(RegisterInfo),
    /// Keep the token of the session.
    StoreToken(String),
    /// The signed-in user's own data.
    LoadMySelf,
    /// Tell the application who is signed in.
    SignedIn(SlimUser),
}

/// What a transition asks for.
pub enum Action {
    Query(AuthRequest),
    Route(AppRoute),
}

/// What the sign-in page reacts to; replies arrive decoded, `Err` holding
/// the message of a failed reply.
pub enum LoginMsg {
    Request,
    /// The token of the new session.
    Response(Result<String, String>),
    /// The signed-in user's data, once the token is stored.
    MySelf(SlimUser),
    Ignore,
    UpdateUsername(String),
    UpdatePassword(String),
}

/// The state of the sign-in page.
pub struct Login {
    pub error: Option<String>,
    pub request: LoginInfo,
    /// Whether a sign-in is under way.
    pub pending: bool,
}

/// The transition of the sign-in page: from `s`, message `m` leads to `t`
/// and asks for `acts`.
pub open spec fn login_next(s: Login, m: LoginMsg, t: Login, acts: Seq<Action>) -> bool {
    match m {
        LoginMsg::Request => t == (Login { pending: true, ..s }) && acts == seq![Action::Query(AuthRequest::Login(s.request))],
        LoginMsg::Response(Ok(token)) => t == s
            && acts == seq![Action::Query(AuthRequest::StoreToken(token)), Action::Query(AuthRequest::LoadMySelf)],
        LoginMsg::Response(Err(e)) => t == (Login { error: Some(e), pending: false, ..s }) && acts.len() == 0,
        LoginMsg::MySelf(user) => t == s && acts == seq![Action::Query(AuthRequest::SignedIn(user)), Action::Route(AppRoute::Home)],
        LoginMsg::Ignore => t == s && acts.len() == 0,
        LoginMsg::UpdateUsername(v) => t == (Login { request: LoginInfo { username: v, ..s.request }, ..s }) && acts.len() == 0,
        LoginMsg::UpdatePassword(v) => t == (Login { request: LoginInfo { password: v, ..s.request }, ..s }) && acts.len() == 0,
    }
}

/// Sign-in law: the home page is opened only once the signed-in user is
/// known, and the application hears of that user first.
pub proof fn lemma_home_after_user(s: Login, m: LoginMsg, t: Login, acts: Seq<Action>)
    requires
        login_next(s, m, t, acts),
        acts.contains(Action::Route(AppRoute::Home)),
    ensures
        m matches LoginMsg::MySelf(user) && acts[0] == Action::Query(AuthRequest::SignedIn(user)),
{
    let k = choose|k: int| 0 <= k < acts.len() && acts[k] == Action::Route(AppRoute::Home);
    assert(acts[k] == Action::Route(AppRoute::Home));
}

/// Form law: typing a password sets the form's password to it and leaves
/// the username; typing a username sets the username and leaves the
/// password.
pub proof fn lemma_login_form_fields(s: Login, v: String, t: Login, a: Seq<Action>, u: Login, b: Seq<Action>)
    requires
        login_next(s, LoginMsg::UpdatePassword(v), t, a),
        login_next(s, LoginMsg::UpdateUsername(v), u, b),
    ensures
        t.request.password == v && t.request.username == s.request.username,
        u.request.username == v && u.request.password == s.request.password,
        a.len() == 0 && b.len() == 0,
{
}

/// Sign-in law: after typing a username and a password, signing in sends
/// exactly those two, and nothing else.
pub proof fn lemma_sign_in_sends_typed_credentials(
    s: Login,
    name: String,
    password: String,
    t: Login,
    a1: Seq<Action>,
    u: Login,
    a2: Seq<Action>,
    w: Login,
    a3: Seq<Action>,
)
    requires
        login_next(s, LoginMsg::UpdateUsername(name), t, a1),
        login_next(t, LoginMsg::UpdatePassword(password), u, a2),
        login_next(u, LoginMsg::Request, w, a3),
    ensures
        a3.len() == 1,
        a3[0] matches Action::Query(AuthRequest::Login(l)) && l.username == name && l.password == password,
        w.pending,
{
}

impl Login {
    /// The sign-in page as first shown: an empty form.
    pub fn new() -> (s: Self)
        ensures
            s.error.is_none(),
            s.request.username@.len() == 0 && s.request.password@.len() == 0,
            !s.pending,
    {
        Login { error: None, request: LoginInfo { username: String::new(), password: String::new() }, pending: false }
    }

    /// Handles one message; see `login_next`. The page is drawn again after
    /// each.
    pub fn update(&mut self, msg: LoginMsg) -> (acts: Vec<Action>)
        ensures
            login_next(*old(self), msg, *final(self), acts@),
    {
        let mut acts: Vec<Action> = Vec::new();
        match msg {
            LoginMsg::Request => {
                acts.push(Action::Query(AuthRequest::Login(LoginInfo {
                    username: self.request.username.clone(),
                    password: self.request.password.clone(),
                })));
                self.pending = true;
            },
            LoginMsg::Response(res) => match res {
                Ok(token) => {
                    acts.push(Action::Query(AuthRequest::StoreToken(token)));
                    acts.push(Action::Query(AuthRequest::LoadMySelf));
                    assert(acts@ =~= seq![Action::Query(AuthRequest::StoreToken(token)), Action::Query(AuthRequest::LoadMySelf)]);
                },
                Err(e) => {
                    self.error = Some(e);
                    self.pending = false;
                },
            },
            LoginMsg::MySelf(user) => {
                acts.push(Action::Query(AuthRequest::SignedIn(user)));
                acts.push(Action::Route(AppRoute::Home));
                assert(acts@ =~= seq![Action::Query(AuthRequest::SignedIn(user)), Action::Route(AppRoute::Home)]);
            },
            LoginMsg::Ignore => {},
            LoginMsg::UpdateUsername(v) => {
                self.request.username = v;
            },
            LoginMsg::UpdatePassword(v) => {
                self.request.password = v;
            },
        }
        acts
    }
}

/// What the sign-up page reacts to; replies arrive decoded, `Err` holding
/// the message of a failed reply.
pub enum RegisterMsg {
    Request,
    /// The user registered.
    Response(Result<SlimUser, String>),
    Ignore,
    UpdateEmail(String),
    UpdatePassword(String),
    UpdateUsername(String),
}

/// The state of the sign-up page.
pub struct Register {
    pub error: Option<String>,
    pub request: RegisterInfo,
    /// Whether a sign-up is under way.
    pub pending: bool,
}

/// The transition of the sign-up page: from `s`, message `m` leads to `t`
/// and asks for `acts`.
pub open spec fn register_next(s: Register, m: RegisterMsg, t: Register, acts: Seq<Action>) -> bool {
    match m {
        RegisterMsg::Request => t == (Register { pending: true, ..s })
            && acts == seq![Action::Query(AuthRequest::Register(s.request))],
        RegisterMsg::Response(Ok(user)) => t == (Register { error: None, pending: false, ..s })
            && acts == seq![Action::Query(AuthRequest::SignedIn(user)), Action::Route(AppRoute::Home)],
        RegisterMsg::Response(Err(e)) => t == (Register { error: Some(e), pending: false, ..s }) && acts.len() == 0,
        RegisterMsg::Ignore => t == s && acts.len() == 0,
        RegisterMsg::UpdateEmail(v) => t == (Register { request: RegisterInfo { email: v, ..s.request }, ..s })
            && acts.len() == 0,
        RegisterMsg::UpdatePassword(v) => t == (Register { request: RegisterInfo { password: v, ..s.request }, ..s })
            && acts.len() == 0,
        RegisterMsg::UpdateUsername(v) => t == (Register { request: RegisterInfo { username: v, ..s.request }, ..s })
            && acts.len() == 0,
    }
}

/// Sign-up law: once the server answers, the page is no longer waiting,
/// and an error is shown exactly when the sign-up failed.
pub proof fn lemma_answer_ends_wait(s: Register, r: Result<SlimUser, String>, t: Register, acts: Seq<Action>)
    requires
        register_next(s, RegisterMsg::Response(r), t, acts),
    ensures
        !t.pending,
        t.error.is_some() <==> r is Err,
{
}

/// Sign-up law: after typing an e-mail, a username and a password,
/// signing up sends exactly those three.
pub proof fn lemma_sign_up_sends_typed_data(
    s: Register,
    email: String,
    name: String,
    password: String,
    t: Register,
    a1: Seq<Action>,
    u: Register,
    a2: Seq<Action>,
    v: Register,
    a3: Seq<Action>,
    w: Register,
    a4: Seq<Action>,
)
    requires
        register_next(s, RegisterMsg::UpdateEmail(email), t, a1),
        register_next(t, RegisterMsg::UpdateUsername(name), u, a2),
        register_next(u, RegisterMsg::UpdatePassword(password), v, a3),
        register_next(v, RegisterMsg::Request, w, a4),
    ensures
        a4.len() == 1,
        a4[0] matches Action::Query(AuthRequest::Register(r)) && r.email == email && r.username == name
            && r.password == password,
{
}

impl Register {
    /// The sign-up page as first shown: an empty form.
    pub fn new() -> (s: Self)
        ensures
            s.error.is_none(),
            s.request.email@.len() == 0 && s.request.username@.len() == 0 && s.request.password@.len() == 0,
            !s.pending,
    {
        Register {
            error: None,
            request: RegisterInfo { email: String::new(), username: String::new(), password: String::new() },
            pending: false,
        }
    }

    /// Handles one message; see `register_next`. The page is drawn again
    /// after each.
    pub fn update(&mut self, msg: RegisterMsg) -> (acts: Vec<Action>)
        ensures
            register_next(*old(self), msg, *final(self), acts@),
    {
        let mut acts: Vec<Action> = Vec::new();
        match msg {
            RegisterMsg::Request => {
                acts.push(Action::Query(AuthRequest::Register(RegisterInfo {
                    email: self.request.email.clone(),
                    username: self.request.username.clone(),
                    password: self.request.password.clone(),
                })));
                self.pending = true;
            },
            RegisterMsg::Response(res) => match res {
                Ok(user) => {
                    acts.push(Action::Query(AuthRequest::SignedIn(user)));
                    self.error = None;
                    self.pending = false;
                    acts.push(Action::Route(AppRoute::Home));
                    assert(acts@ =~= seq![Action::Query(AuthRequest::SignedIn(user)), Action::Route(AppRoute::Home)]);
                },
                Err(e) => {
                    self.error = Some(e);
                    self.pending = false;
                },
            },
            RegisterMsg::Ignore => {},
            RegisterMsg::UpdateEmail(v) => {
                self.request.email = v;
            },
            RegisterMsg::UpdatePassword(v) => {
                self.request.password = v;
            },
            RegisterMsg::UpdateUsername(v) => {
                self.request.username = v;
            },
        }
        acts
    }
}

} // verus!
