//! The page that shows a company: its card, followers and related objects.

use vstd::prelude::*;
use crate::company::CompanyInfo;
use crate::route::{AppRoute, route_target, strip_leading, same_text};

verus! {

/// The tabs of related objects.
#[derive(PartialEq, Eq, Structural, Clone, Copy)]
pub enum CompanyTab {
    Certificates,
    Components,
    Standards,
    Represent,
}

/// A request to the server or to the browser.
pub enum ShowCompanyRequest {
    Load { company_uuid: String },
    AddFav { company_uuid: String },
    DeleteFav { company_uuid: String },
    /// Remember that the login page should lead back here.
    SetHistoryBack,
    /// Show the text as the window's title.
    SetTitle(String),
}

/// What the page reacts to; replies arrive decoded, `Err` holding the
/// message of a failed reply.
pub enum Msg {
    Follow,
    AddFollow(Result<bool, String>),
    UnFollow,
    DelFollow(Result<bool, String>),
    GetCompanyResult(Result<CompanyInfo, String>),
    ChangeTab(CompanyTab),
    OpenSettingCompany,
    ShowFullCompanyInfo,
    ResponseError(String),
    ClearError,
    Ignore,
}

/// What a transition asks for.
pub enum Action {
    Query(ShowCompanyRequest),
    Route(AppRoute),
    Send(Msg),
}

/// The state of the page.
pub struct ShowCompany {
    /// The uuid that the page was given.
    pub props_company_uuid: String,
    pub error: Option<String>,
    pub company: Option<CompanyInfo>,
    pub current_company_uuid: String,
    pub current_user_owner: bool,
    pub subscribers: usize,
    pub is_followed: bool,
    pub company_tab: CompanyTab,
    pub extend_tab: Option<CompanyTab>,
    pub show_full_company_info: bool,
}

/// No action.
pub open spec fn none() -> Seq<Action> {
    Seq::<Action>::empty()
}

/// The prefix of the page's route.
pub open spec fn page_prefix() -> Seq<char> {
    "#/company/"@
}

/// The number shown beside a tab: the company's certificates or
/// representations, and nothing for the other tabs or before the company
/// is loaded.
pub open spec fn items_count(s: ShowCompany, tab: CompanyTab) -> nat {
    match s.company {
        Some(c) => match tab {
            CompanyTab::Certificates => c.company_certificates@.len(),
            CompanyTab::Represent => c.company_represents@.len(),
            CompanyTab::Components => 0,
            CompanyTab::Standards => 0,
        },
        None => 0,
    }
}

/// The messages that the page cannot take in state `s` (it would fail):
/// following or unfollowing before the company is loaded, and a counter
/// that would leave the range of `usize`.
pub open spec fn accepts(s: ShowCompany, m: Msg) -> bool {
    &&& (m is Follow || m is UnFollow) ==> s.company.is_some()
    &&& m == Msg::AddFollow(Ok(true)) ==> s.subscribers < usize::MAX
    &&& m == Msg::DelFollow(Ok(true)) ==> s.subscribers > 0
}

/// The transition of the page: from `s`, message `m` (with the signed-in
/// user `logged_user`, by uuid) leads to `t` and asks for `acts`.
pub open spec fn next(s: ShowCompany, m: Msg, logged_user: Option<String>, t: ShowCompany, acts: Seq<Action>) -> bool {
    match m {
        Msg::Follow => t == s
            && acts == seq![Action::Query(ShowCompanyRequest::AddFav { company_uuid: s.company.unwrap().uuid })],
        Msg::UnFollow => t == s
            && acts == seq![Action::Query(ShowCompanyRequest::DeleteFav { company_uuid: s.company.unwrap().uuid })],
        Msg::AddFollow(Ok(done)) => acts == none()
            && t == (if done { ShowCompany { subscribers: (s.subscribers + 1) as usize, is_followed: true, ..s } } else { s }),
        Msg::DelFollow(Ok(done)) => acts == none()
            && t == (if done { ShowCompany { subscribers: (s.subscribers - 1) as usize, is_followed: false, ..s } } else { s }),
        Msg::AddFollow(Err(e)) | Msg::DelFollow(Err(e)) | Msg::GetCompanyResult(Err(e)) =>
            t == s && acts == seq![Action::Send(Msg::ResponseError(e))],
        Msg::GetCompanyResult(Ok(c)) => acts == none() && t == (ShowCompany {
            subscribers: c.subscribers,
            is_followed: c.is_followed,
            current_company_uuid: c.uuid,
            current_user_owner: match logged_user {
                Some(u) => c.owner_user_uuid@ == u@,
                None => s.current_user_owner,
            },
            company: Some(c),
            ..s
        }),
        Msg::ChangeTab(tab) => t == (ShowCompany { company_tab: tab, ..s }) && acts == none(),
        Msg::OpenSettingCompany => t == s && acts == (match s.company {
            Some(c) => seq![Action::Route(AppRoute::CompanySettings(c.uuid))],
            None => none(),
        }),
        Msg::ShowFullCompanyInfo => t == (ShowCompany { show_full_company_info: !s.show_full_company_info, ..s })
            && acts == none(),
        Msg::ResponseError(e) => t == (ShowCompany { error: Some(e), ..s }) && acts == none(),
        Msg::ClearError => t == (ShowCompany { error: None, ..s }) && acts == none(),
        Msg::Ignore => t == s && acts == none(),
    }
}

/// What showing the page does: a visitor who is not signed in is sent to
/// the login page (which is to lead back here), the window title is the
/// loaded company's short name, and the company named by the route fragment
/// is loaded, its old data dropped, when the page first shows or the
/// fragment names another company.
pub open spec fn rendered(
    s: ShowCompany,
    first_render: bool,
    logged_in: bool,
    fragment: Seq<char>,
    t: ShowCompany,
    acts: Seq<Action>,
) -> bool {
    let target = strip_leading(fragment, page_prefix());
    let changed = target != s.current_company_uuid@;
    let login = if logged_in {
        none()
    } else {
        seq![Action::Query(ShowCompanyRequest::SetHistoryBack), Action::Route(AppRoute::Login)]
    };
    let title = match s.company {
        Some(c) => seq![Action::Query(ShowCompanyRequest::SetTitle(c.shortname))],
        None => none(),
    };
    if first_render || changed {
        &&& t.current_company_uuid@ == target
        &&& t == (ShowCompany { error: None, company: None, current_company_uuid: t.current_company_uuid, ..s })
        &&& acts.len() == login.len() + title.len() + 1
        &&& acts.subrange(0, (login.len() + title.len()) as int) == login + title
        &&& acts.last() matches Action::Query(ShowCompanyRequest::Load { company_uuid: a })
        &&& a@ == target
    } else {
        t == s && acts == login + title
    }
}

/// Bookmark law: a click on "follow" asks for exactly one request, to
/// follow the loaded company; a click on "unfollow" asks for exactly one, to
/// stop following it.
pub proof fn lemma_follow_clicks_ask_the_server(
    s: ShowCompany,
    logged_user: Option<String>, t: ShowCompany,
    a1: Seq<Action>,
    u: ShowCompany,
    a2: Seq<Action>,
)
    requires
        next(s, Msg::Follow, logged_user, t, a1),
        next(s, Msg::UnFollow, logged_user, u, a2),
    ensures
        a1.len() == 1,
        a1[0] matches Action::Query(ShowCompanyRequest::AddFav { company_uuid: x }) && x == s.company.unwrap().uuid,
        a2.len() == 1,
        a2[0] matches Action::Query(ShowCompanyRequest::DeleteFav { company_uuid: y }) && y == s.company.unwrap().uuid,
        t == s && u == s,
{
}

/// Bookmark law: of all messages, only "follow" asks the server to follow,
/// and only "unfollow" asks it to stop following.
pub proof fn lemma_bookmark_requests_come_from_clicks(
    s: ShowCompany,
    m: Msg,
    logged_user: Option<String>, t: ShowCompany,
    acts: Seq<Action>,
    i: int,
)
    requires
        next(s, m, logged_user, t, acts),
        0 <= i < acts.len(),
    ensures
        acts[i] matches Action::Query(ShowCompanyRequest::AddFav { .. }) ==> m is Follow,
        acts[i] matches Action::Query(ShowCompanyRequest::DeleteFav { .. }) ==> m is UnFollow,
{
}

/// Follow law: a confirmed follow and then a confirmed unfollow leave the
/// count of followers where it was, with the company not followed.
pub proof fn lemma_follow_then_unfollow(
    s: ShowCompany,
    logged_user: Option<String>,
    t: ShowCompany,
    a1: Seq<Action>,
    u: ShowCompany,
    a2: Seq<Action>,
)
    requires
        accepts(s, Msg::AddFollow(Ok(true))),
        next(s, Msg::AddFollow(Ok(true)), logged_user, t, a1),
        next(t, Msg::DelFollow(Ok(true)), logged_user, u, a2),
    ensures
        accepts(t, Msg::DelFollow(Ok(true))),
        u == (ShowCompany { is_followed: false, ..s }),
        a1.len() == 0 && a2.len() == 0,
{
}

impl ShowCompany {
    /// The page as first created for the company `company_uuid`, on the
    /// components tab.
    pub fn new(company_uuid: String) -> (s: Self)
        ensures
            s.props_company_uuid == company_uuid,
            s.error.is_none(),
            s.company.is_none(),
            s.current_company_uuid@.len() == 0,
            !s.current_user_owner,
            s.subscribers == 0,
            !s.is_followed,
            s.company_tab == CompanyTab::Components,
            s.extend_tab.is_none(),
            !s.show_full_company_info,
    {
        ShowCompany {
            props_company_uuid: company_uuid,
            error: None,
            company: None,
            current_company_uuid: String::new(),
            current_user_owner: false,
            subscribers: 0,
            is_followed: false,
            company_tab: CompanyTab::Components,
            extend_tab: None,
            show_full_company_info: false,
        }
    }

    /// The number of followers shown on the page.
    pub fn quantity(&self) -> (n: usize)
        ensures
            n == self.subscribers,
    {
        self.subscribers
    }

    /// Whether `tab` is the tab shown.
    pub fn is_active(&self, tab: CompanyTab) -> (r: bool)
        ensures
            r == (self.company_tab == tab),
    {
        self.company_tab == tab
    }

    /// Whether `tab` is the extended tab.
    pub fn check_extend(&self, tab: CompanyTab) -> (r: bool)
        ensures
            r == (self.extend_tab == Some(tab)),
    {
        match self.extend_tab {
            Some(t) => t == tab,
            None => false,
        }
    }

    /// The number shown beside a tab; see `items_count`.
    pub fn get_number_of_items(&self, tab: CompanyTab) -> (n: usize)
        ensures
            n == items_count(*self, tab),
    {
        match &self.company {
            Some(c) => match tab {
                CompanyTab::Certificates => c.company_certificates.len(),
                CompanyTab::Represent => c.company_represents.len(),
                CompanyTab::Components => 0,
                CompanyTab::Standards => 0,
            },
            None => 0,
        }
    }

    /// Takes the company uuid given to the page; the page is drawn again
    /// only when it changed.
    pub fn change(&mut self, company_uuid: String) -> (redraw: bool)
        ensures
            redraw == (company_uuid@ != old(self).props_company_uuid@),
            redraw ==> *final(self) == (ShowCompany { props_company_uuid: company_uuid, ..*old(self) }),
            !redraw ==> *final(self) == *old(self),
    {
        if same_text(self.props_company_uuid.as_str(), company_uuid.as_str()) {
            false
        } else {
            self.props_company_uuid = company_uuid;
            true
        }
    }

    /// Handles the showing of the page; see `rendered`.
    pub fn on_render(&mut self, first_render: bool, logged_in: bool, fragment: &str) -> (acts: Vec<Action>)
        ensures
            rendered(*old(self), first_render, logged_in, fragment@, *final(self), acts@),
    {
        let ghost s = *self;
        let mut acts: Vec<Action> = Vec::new();
        if !logged_in {
            acts.push(Action::Query(ShowCompanyRequest::SetHistoryBack));
            acts.push(Action::Route(AppRoute::Login));
        }
        match &self.company {
            Some(c) => {
                acts.push(Action::Query(ShowCompanyRequest::SetTitle(c.shortname.clone())));
            },
            None => {},
        }
        let ghost head = acts@;
        proof {
            let login = if logged_in {
                none()
            } else {
                seq![Action::Query(ShowCompanyRequest::SetHistoryBack), Action::Route(AppRoute::Login)]
            };
            let title = match s.company {
                Some(c) => seq![Action::Query(ShowCompanyRequest::SetTitle(c.shortname))],
                None => none(),
            };
            assert(head =~= login + title);
        }
        let target = route_target(fragment, "#/company/");
        let changed = !same_text(target.as_str(), self.current_company_uuid.as_str());
        if first_render || changed {
            self.error = None;
            self.company = None;
            self.current_company_uuid = target.clone();
            acts.push(Action::Query(ShowCompanyRequest::Load { company_uuid: target }));
            assert(acts@.subrange(0, head.len() as int) == head);
        }
        acts
    }

    /// Handles one message, with the signed-in user by uuid; see `next`.
    /// The page is drawn again after each.
    #[verifier::rlimit(60)]
    #[verifier::spinoff_prover]
    pub fn update(&mut self, msg: Msg, logged_user: Option<String>) -> (acts: Vec<Action>)
        requires
            accepts(*old(self), msg),
        ensures
            next(*old(self), msg, logged_user, *final(self), acts@),
    {
        let mut acts: Vec<Action> = Vec::new();
        match msg {
            Msg::Follow => {
                let company_uuid = match &self.company {
                    Some(c) => c.uuid.clone(),
                    None => String::new(),
                };
                acts.push(Action::Query(ShowCompanyRequest::AddFav { company_uuid }));
            },
            Msg::UnFollow => {
                let company_uuid = match &self.company {
                    Some(c) => c.uuid.clone(),
                    None => String::new(),
                };
                acts.push(Action::Query(ShowCompanyRequest::DeleteFav { company_uuid }));
            },
            Msg::AddFollow(res) => match res {
                Ok(done) => {
                    if done {
                        self.subscribers = self.subscribers + 1;
                        self.is_followed = true;
                    }
                },
                Err(e) => {
                    acts.push(Action::Send(Msg::ResponseError(e)));
                },
            },
            Msg::DelFollow(res) => match res {
                Ok(done) => {
                    if done {
                        self.subscribers = self.subscribers - 1;
                        self.is_followed = false;
                    }
                },
                Err(e) => {
                    acts.push(Action::Send(Msg::ResponseError(e)));
                },
            },
            Msg::GetCompanyResult(res) => match res {
                Ok(c) => {
                    self.subscribers = c.subscribers;
                    self.is_followed = c.is_followed;
                    self.current_company_uuid = c.uuid.clone();
                    match &logged_user {
                        Some(u) => {
                            self.current_user_owner = same_text(c.owner_user_uuid.as_str(), u.as_str());
                        },
                        None => {},
                    }
                    self.company = Some(c);
                },
                Err(e) => {
                    acts.push(Action::Send(Msg::ResponseError(e)));
                },
            },
            Msg::ChangeTab(tab) => {
                self.company_tab = tab;
            },
            Msg::OpenSettingCompany => {
                match &self.company {
                    Some(c) => {
                        acts.push(Action::Route(AppRoute::CompanySettings(c.uuid.clone())));
                    },
                    None => {},
                }
            },
            Msg::ShowFullCompanyInfo => {
                self.show_full_company_info = !self.show_full_company_info;
            },
            Msg::ResponseError(e) => {
                self.error = Some(e);
            },
            Msg::ClearError => {
                self.error = None;
            },
            Msg::Ignore => {},
        }
        acts
    }
}

} // verus!
