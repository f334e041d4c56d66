//! The profile page of a user: the signed-in user's own data, or another
//! user's public data.

use vstd::prelude::*;
use crate::common::{NamedId, first_chars, first_chars_of};
use crate::user_settings::SelfUserInfo;

verus! {

/// The tabs of the profile page.
#[derive(PartialEq, Eq, Structural, Clone, Copy)]
pub enum ProfileTab {
    FavoritedBy,
}

/// Another user's public data, as the page reads it.
pub struct UserInfo {
    pub uuid: String,
    pub username: String,
    pub firstname: String,
    pub lastname: String,
    pub description: String,
    pub subscribers: usize,
}

/// The time of the last change as the card shows it: the first 19
/// characters of the time's text as the page writes it (its `to_string`),
/// which is its date and time to the second.
pub fn update_time_shown(updated_at: &str) -> (t: String)
    ensures
        t@ == first_chars(updated_at@, 19),
{
    first_chars_of(updated_at, 19)
}

/// The option lists of the page.
pub struct ProfileLists {
    pub regions: Vec<NamedId>,
    pub programs: Vec<NamedId>,
}

/// A request to the server or to the browser.
pub enum ProfileRequest {
    /// The signed-in user's own data and the option lists.
    LoadSelf,
    /// Another user's data and the option lists.
    LoadUser { username: String },
    /// Forget the session's token.
    ClearToken,
}

/// What the page reacts to; replies arrive decoded, `Err` holding the
/// message of a failed reply.
pub enum Msg {
    GetSelfData(Result<SelfUserInfo, String>),
    GetUserData(Result<UserInfo, String>),
    UpdateList(Result<ProfileLists, String>),
    Ignore,
    Logout,
}

/// What a transition asks for.
pub enum Action {
    Query(ProfileRequest),
}

/// The state of the page.
pub struct Profile {
    /// The user whose profile is shown, by username.
    pub username: String,
    /// The signed-in user, by username.
    pub current_user: Option<String>,
    pub error: Option<String>,
    pub self_profile: Option<SelfUserInfo>,
    pub profile: Option<UserInfo>,
    pub programs: Vec<NamedId>,
    pub regions: Vec<NamedId>,
}

/// No action.
pub open spec fn none() -> Seq<Action> {
    Seq::<Action>::empty()
}

/// Whether the profile shown is the signed-in user's own.
pub open spec fn own_profile(s: Profile) -> bool {
    match s.current_user {
        Some(u) => u@ == s.username@,
        None => false,
    }
}

/// The transition of the page: from `s`, message `m` leads to `t` and asks
/// for `acts`. The user's own data and another user's data never stand
/// side by side.
pub open spec fn next(s: Profile, m: Msg, t: Profile, acts: Seq<Action>) -> bool {
    match m {
        Msg::GetSelfData(Ok(d)) => t == (Profile { profile: None, self_profile: Some(d), ..s }) && acts == none(),
        Msg::GetSelfData(Err(e)) => t == (Profile { profile: None, error: Some(e), ..s }) && acts == none(),
        Msg::GetUserData(Ok(d)) => t == (Profile { self_profile: None, profile: Some(d), ..s }) && acts == none(),
        Msg::GetUserData(Err(e)) => t == (Profile { self_profile: None, error: Some(e), ..s }) && acts == none(),
        Msg::UpdateList(Ok(lists)) => t == (Profile { regions: lists.regions, programs: lists.programs, ..s })
            && acts == none(),
        Msg::UpdateList(Err(e)) => t == (Profile { error: Some(e), ..s }) && acts == none(),
        Msg::Ignore => t == s && acts == none(),
        Msg::Logout => t == s && acts == seq![Action::Query(ProfileRequest::ClearToken)],
    }
}

/// What showing the page asks for: on the first showing to a signed-in
/// visitor, the own data when the profile is the visitor's, else the other
/// user's data.
pub open spec fn rendered(s: Profile, first_render: bool, authenticated: bool, acts: Seq<Action>) -> bool {
    if first_render && authenticated {
        acts == (if own_profile(s) {
            seq![Action::Query(ProfileRequest::LoadSelf)]
        } else {
            seq![Action::Query(ProfileRequest::LoadUser { username: s.username })]
        })
    } else {
        acts == none()
    }
}

/// Profile law: the own data and another user's data are never both held.
pub open spec fn one_profile(s: Profile) -> bool {
    !(s.self_profile.is_some() && s.profile.is_some())
}

/// Profile law: every transition keeps `one_profile`.
pub proof fn lemma_one_profile_kept(s: Profile, m: Msg, t: Profile, acts: Seq<Action>)
    requires
        one_profile(s),
        next(s, m, t, acts),
    ensures
        one_profile(t),
{
}

/// Sign-out law: signing out asks for exactly the token to be cleared and
/// keeps the page as it is; no other message clears the token.
pub proof fn lemma_logout_clears_token(s: Profile, m: Msg, t: Profile, acts: Seq<Action>, i: int)
    requires
        next(s, m, t, acts),
        0 <= i < acts.len(),
    ensures
        m is Logout ==> acts == seq![Action::Query(ProfileRequest::ClearToken)] && t == s,
        acts[i] == Action::Query(ProfileRequest::ClearToken) ==> m is Logout,
{
}

/// Loading law: showing the page for the first time to a signed-in visitor
/// loads the own data exactly when the profile is the visitor's, and the
/// named user's data otherwise; nothing is loaded in any other case.
pub proof fn lemma_render_loads_right_profile(s: Profile, first_render: bool, authenticated: bool, acts: Seq<Action>)
    requires
        rendered(s, first_render, authenticated, acts),
    ensures
        first_render && authenticated && own_profile(s) ==> acts == seq![Action::Query(ProfileRequest::LoadSelf)],
        first_render && authenticated && !own_profile(s) ==> acts
            == seq![Action::Query(ProfileRequest::LoadUser { username: s.username })],
        !(first_render && authenticated) ==> acts.len() == 0,
{
}

impl Profile {
    /// The page as first created for the profile of `username`, seen by
    /// `current_user`.
    pub fn new(username: String, current_user: Option<String>) -> (s: Self)
        ensures
            s.username == username,
            s.current_user == current_user,
            s.error.is_none(),
            s.self_profile.is_none(),
            s.profile.is_none(),
            s.programs@.len() == 0,
            s.regions@.len() == 0,
            one_profile(s),
    {
        Profile {
            username,
            current_user,
            error: None,
            self_profile: None,
            profile: None,
            programs: Vec::new(),
            regions: Vec::new(),
        }
    }

    /// Takes the profile and the signed-in user given to the page; it is
    /// always drawn again.
    pub fn change(&mut self, username: String, current_user: Option<String>) -> (redraw: bool)
        ensures
            redraw,
            *final(self) == (Profile { username, current_user, ..*old(self) }),
    {
        self.username = username;
        self.current_user = current_user;
        true
    }

    /// Handles the showing of the page; see `rendered`.
    pub fn on_render(&self, first_render: bool, authenticated: bool) -> (acts: Vec<Action>)
        ensures
            rendered(*self, first_render, authenticated, acts@),
    {
        let mut acts: Vec<Action> = Vec::new();
        if first_render && authenticated {
            let own = match &self.current_user {
                Some(u) => crate::route::same_text(u.as_str(), self.username.as_str()),
                None => false,
            };
            if own {
                acts.push(Action::Query(ProfileRequest::LoadSelf));
            } else {
                acts.push(Action::Query(ProfileRequest::LoadUser { username: self.username.clone() }));
            }
        }
        acts
    }

    /// Handles one message; see `next`. The page is drawn again after each.
    pub fn update(&mut self, msg: Msg) -> (acts: Vec<Action>)
        ensures
            next(*old(self), msg, *final(self), acts@),
    {
        let mut acts: Vec<Action> = Vec::new();
        match msg {
            Msg::GetSelfData(res) => {
                self.profile = None;
                match res {
                    Ok(d) => {
                        self.self_profile = Some(d);
                    },
                    Err(e) => {
                        self.error = Some(e);
                    },
                }
            },
            Msg::GetUserData(res) => {
                self.self_profile = None;
                match res {
                    Ok(d) => {
                        self.profile = Some(d);
                    },
                    Err(e) => {
                        self.error = Some(e);
                    },
                }
            },
            Msg::UpdateList(res) => match res {
                Ok(lists) => {
                    self.regions = lists.regions;
                    self.programs = lists.programs;
                },
                Err(e) => {
                    self.error = Some(e);
                },
            },
            Msg::Ignore => {},
            Msg::Logout => {
                acts.push(Action::Query(ProfileRequest::ClearToken));
            },
        }
        acts
    }
}

} // verus!
