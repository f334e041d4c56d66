//! The page that shows a company as a supplier, with a side menu of tabs.

use vstd::prelude::*;
use crate::company::CompanyInfo;
use crate::route::{route_target, strip_leading, same_text};

verus! {

/// The tabs of the side menu.
#[derive(PartialEq, Eq, Structural, Clone, Copy)]
pub enum CompanyTab {
    Info,
    Certificates,
    Represent,
    Components,
    Standards,
}

/// An entry of the side menu: the key of its title text, its icon classes,
/// the tab it opens and an extra class, if any.
pub struct MenuItemTemplate {
    pub lk_title: &'static str,
    pub icon_classes: Vec<&'static str>,
    pub tab: CompanyTab,
    pub custom_class: Option<&'static str>,
}

/// The tabs of the side menu, in their order.
pub open spec fn menu_tabs() -> Seq<CompanyTab> {
    seq![CompanyTab::Info, CompanyTab::Certificates, CompanyTab::Represent, CompanyTab::Components, CompanyTab::Standards]
}

/// The side menu; see `menu_tabs`. No entry has an extra class.
pub fn menu_config() -> (items: Vec<MenuItemTemplate>)
    ensures
        items@.len() == menu_tabs().len(),
        forall|i: int| 0 <= i < items@.len() ==> #[trigger] items@[i].tab == menu_tabs()[i],
        forall|i: int| 0 <= i < items@.len() ==> #[trigger] items@[i].custom_class is None,
{
    let mut items: Vec<MenuItemTemplate> = Vec::new();
    items.push(MenuItemTemplate { lk_title: "Information", icon_classes: vec!["fas", "fa-info"], tab: CompanyTab::Info, custom_class: None });
    items.push(MenuItemTemplate { lk_title: "CertificatesLabel", icon_classes: vec!["fas", "fa-certificate"], tab: CompanyTab::Certificates, custom_class: None });
    items.push(MenuItemTemplate { lk_title: "Representations", icon_classes: vec!["fas", "fa-industry"], tab: CompanyTab::Represent, custom_class: None });
    items.push(MenuItemTemplate { lk_title: "ComponentsLabel", icon_classes: vec!["fas", "fa-cogs"], tab: CompanyTab::Components, custom_class: None });
    items.push(MenuItemTemplate { lk_title: "Standards", icon_classes: vec!["fas", "fa-book"], tab: CompanyTab::Standards, custom_class: None });
    items
}

/// A request to the server or to the browser.
pub enum SupplierRequest {
    Load { company_uuid: String },
    AddFav { company_uuid: String },
    DeleteFav { company_uuid: String },
    /// Show the text as the window's title.
    SetTitle(String),
}

/// What the page reacts to; replies arrive decoded, `Err` holding the
/// message of a failed reply.
pub enum Msg {
    Follow,
    AddFollow(Result<bool, String>),
    UnFollow,
    DelFollow(Result<bool, String>),
    GetCompanyResult(Result<CompanyInfo, String>),
    ChangeTab(CompanyTab),
    ResponseError(String),
    ClearError,
    Ignore,
}

/// What a transition asks for.
pub enum Action {
    Query(SupplierRequest),
    Send(Msg),
}

/// The state of the page.
pub struct ShowSupplierCompany {
    /// The uuid that the page was given.
    pub props_company_uuid: String,
    pub error: Option<String>,
    pub company: Option<CompanyInfo>,
    pub current_company_uuid: String,
    pub subscribers: usize,
    pub is_followed: bool,
    pub company_tab: CompanyTab,
    pub extend_tab: Option<CompanyTab>,
}

/// No action.
pub open spec fn none() -> Seq<Action> {
    Seq::<Action>::empty()
}

/// The prefix of the page's route.
pub open spec fn page_prefix() -> Seq<char> {
    "#/supplier/"@
}

/// The number shown beside a tab: the company's certificates or
/// representations, and nothing for the other tabs or before the company
/// is loaded.
pub open spec fn items_count(s: ShowSupplierCompany, tab: CompanyTab) -> nat {
    match s.company {
        Some(c) => match tab {
            CompanyTab::Certificates => c.company_certificates@.len(),
            CompanyTab::Represent => c.company_represents@.len(),
            _ => 0,
        },
        None => 0,
    }
}

/// The messages that the page cannot take in state `s` (it would fail):
/// following or unfollowing before the company is loaded, and a counter
/// that would leave the range of `usize`.
pub open spec fn accepts(s: ShowSupplierCompany, m: Msg) -> bool {
    &&& (m is Follow || m is UnFollow) ==> s.company.is_some()
    &&& m == Msg::AddFollow(Ok(true)) ==> s.subscribers < usize::MAX
    &&& m == Msg::DelFollow(Ok(true)) ==> s.subscribers > 0
}

/// The transition of the page: from `s`, message `m` leads to `t` and asks
/// for `acts`.
pub open spec fn next(s: ShowSupplierCompany, m: Msg, t: ShowSupplierCompany, acts: Seq<Action>) -> bool {
    match m {
        Msg::Follow => t == s
            && acts == seq![Action::Query(SupplierRequest::AddFav { company_uuid: s.company.unwrap().uuid })],
        Msg::UnFollow => t == s
            && acts == seq![Action::Query(SupplierRequest::DeleteFav { company_uuid: s.company.unwrap().uuid })],
        Msg::AddFollow(Ok(done)) => acts == none() && t == (if done {
            ShowSupplierCompany { subscribers: (s.subscribers + 1) as usize, is_followed: true, ..s }
        } else {
            s
        }),
        Msg::DelFollow(Ok(done)) => acts == none() && t == (if done {
            ShowSupplierCompany { subscribers: (s.subscribers - 1) as usize, is_followed: false, ..s }
        } else {
            s
        }),
        Msg::AddFollow(Err(e)) | Msg::DelFollow(Err(e)) | Msg::GetCompanyResult(Err(e)) =>
            t == s && acts == seq![Action::Send(Msg::ResponseError(e))],
        Msg::GetCompanyResult(Ok(c)) => acts == none() && t == (ShowSupplierCompany {
            subscribers: c.subscribers,
            is_followed: c.is_followed,
            current_company_uuid: c.uuid,
            company: Some(c),
            ..s
        }),
        Msg::ChangeTab(tab) => t == (ShowSupplierCompany { company_tab: tab, ..s }) && acts == none(),
        Msg::ResponseError(e) => t == (ShowSupplierCompany { error: Some(e), ..s }) && acts == none(),
        Msg::ClearError => t == (ShowSupplierCompany { error: None, ..s }) && acts == none(),
        Msg::Ignore => t == s && acts == none(),
    }
}

/// What showing the page does: the window title is the loaded company's
/// short name, and the company named by the route fragment is loaded, its
/// old data dropped, when the page first shows or the fragment names
/// another company.
pub open spec fn rendered(
    s: ShowSupplierCompany,
    first_render: bool,
    fragment: Seq<char>,
    t: ShowSupplierCompany,
    acts: Seq<Action>,
) -> bool {
    let target = strip_leading(fragment, page_prefix());
    let changed = target != s.current_company_uuid@;
    let title = match s.company {
        Some(c) => seq![Action::Query(SupplierRequest::SetTitle(c.shortname))],
        None => none(),
    };
    if first_render || changed {
        &&& t.current_company_uuid@ == target
        &&& t == (ShowSupplierCompany { error: None, company: None, current_company_uuid: t.current_company_uuid, ..s })
        &&& acts.len() == title.len() + 1
        &&& acts.subrange(0, title.len() as int) == title
        &&& acts.last() matches Action::Query(SupplierRequest::Load { company_uuid: a })
        &&& a@ == target
    } else {
        t == s && acts == title
    }
}

/// Bookmark law: a click on "follow" asks for exactly one request, to
/// follow the loaded company; a click on "unfollow" asks for exactly one, to
/// stop following it.
pub proof fn lemma_follow_clicks_ask_the_server(
    s: ShowSupplierCompany,
    t: ShowSupplierCompany,
    a1: Seq<Action>,
    u: ShowSupplierCompany,
    a2: Seq<Action>,
)
    requires
        next(s, Msg::Follow, t, a1),
        next(s, Msg::UnFollow, u, a2),
    ensures
        a1.len() == 1,
        a1[0] matches Action::Query(SupplierRequest::AddFav { company_uuid: x }) && x == s.company.unwrap().uuid,
        a2.len() == 1,
        a2[0] matches Action::Query(SupplierRequest::DeleteFav { company_uuid: y }) && y == s.company.unwrap().uuid,
        t == s && u == s,
{
}

/// Bookmark law: of all messages, only "follow" asks the server to follow,
/// and only "unfollow" asks it to stop following.
pub proof fn lemma_bookmark_requests_come_from_clicks(
    s: ShowSupplierCompany,
    m: Msg,
    t: ShowSupplierCompany,
    acts: Seq<Action>,
    i: int,
)
    requires
        next(s, m, t, acts),
        0 <= i < acts.len(),
    ensures
        acts[i] matches Action::Query(SupplierRequest::AddFav { .. }) ==> m is Follow,
        acts[i] matches Action::Query(SupplierRequest::DeleteFav { .. }) ==> m is UnFollow,
{
}

/// Follow law: a confirmed follow and then a confirmed unfollow leave the
/// count of followers where it was, with the company not followed.
pub proof fn lemma_follow_then_unfollow(
    s: ShowSupplierCompany,
    t: ShowSupplierCompany,
    a1: Seq<Action>,
    u: ShowSupplierCompany,
    a2: Seq<Action>,
)
    requires
        accepts(s, Msg::AddFollow(Ok(true))),
        next(s, Msg::AddFollow(Ok(true)), t, a1),
        next(t, Msg::DelFollow(Ok(true)), u, a2),
    ensures
        accepts(t, Msg::DelFollow(Ok(true))),
        u == (ShowSupplierCompany { is_followed: false, ..s }),
        a1.len() == 0 && a2.len() == 0,
{
}

impl ShowSupplierCompany {
    /// The page as first created for the company `company_uuid`, on the
    /// information tab.
    pub fn new(company_uuid: String) -> (s: Self)
        ensures
            s.props_company_uuid == company_uuid,
            s.error.is_none(),
            s.company.is_none(),
            s.current_company_uuid@.len() == 0,
            s.subscribers == 0,
            !s.is_followed,
            s.company_tab == CompanyTab::Info,
            s.extend_tab.is_none(),
    {
        ShowSupplierCompany {
            props_company_uuid: company_uuid,
            error: None,
            company: None,
            current_company_uuid: String::new(),
            subscribers: 0,
            is_followed: false,
            company_tab: CompanyTab::Info,
            extend_tab: None,
        }
    }

    /// The number of followers shown on the page.
    pub fn quantity(&self) -> (n: usize)
        ensures
            n == self.subscribers,
    {
        self.subscribers
    }

    /// Whether `tab` is the tab shown.
    pub fn is_active(&self, tab: CompanyTab) -> (r: bool)
        ensures
            r == (self.company_tab == tab),
    {
        self.company_tab == tab
    }

    /// Whether `tab` is the extended tab.
    pub fn check_extend(&self, tab: CompanyTab) -> (r: bool)
        ensures
            r == (self.extend_tab == Some(tab)),
    {
        match self.extend_tab {
            Some(t) => t == tab,
            None => false,
        }
    }

    /// The number shown beside a tab; see `items_count`.
    pub fn get_number_of_items(&self, tab: CompanyTab) -> (n: usize)
        ensures
            n == items_count(*self, tab),
    {
        match &self.company {
            Some(c) => match tab {
                CompanyTab::Certificates => c.company_certificates.len(),
                CompanyTab::Represent => c.company_represents.len(),
                _ => 0,
            },
            None => 0,
        }
    }

    /// The message that a click on the menu entry of `tab` sends.
    pub fn get_action(&self, tab: CompanyTab) -> (m: Msg)
        ensures
            m == Msg::ChangeTab(tab),
    {
        Msg::ChangeTab(tab)
    }

    /// Takes the company uuid given to the page; the page is drawn again
    /// only when it changed.
    pub fn change(&mut self, company_uuid: String) -> (redraw: bool)
        ensures
            redraw == (company_uuid@ != old(self).props_company_uuid@),
            redraw ==> *final(self) == (ShowSupplierCompany { props_company_uuid: company_uuid, ..*old(self) }),
            !redraw ==> *final(self) == *old(self),
    {
        if same_text(self.props_company_uuid.as_str(), company_uuid.as_str()) {
            false
        } else {
            self.props_company_uuid = company_uuid;
            true
        }
    }

    /// Handles the showing of the page; see `rendered`.
    pub fn on_render(&mut self, first_render: bool, fragment: &str) -> (acts: Vec<Action>)
        ensures
            rendered(*old(self), first_render, fragment@, *final(self), acts@),
    {
        let ghost s = *self;
        let mut acts: Vec<Action> = Vec::new();
        match &self.company {
            Some(c) => {
                acts.push(Action::Query(SupplierRequest::SetTitle(c.shortname.clone())));
            },
            None => {},
        }
        let ghost head = acts@;
        proof {
            let title = match s.company {
                Some(c) => seq![Action::Query(SupplierRequest::SetTitle(c.shortname))],
                None => none(),
            };
            assert(head =~= title);
        }
        let target = route_target(fragment, "#/supplier/");
        let changed = !same_text(target.as_str(), self.current_company_uuid.as_str());
        if first_render || changed {
            self.error = None;
            self.company = None;
            self.current_company_uuid = target.clone();
            acts.push(Action::Query(SupplierRequest::Load { company_uuid: target }));
            assert(acts@.subrange(0, head.len() as int) == head);
        }
        acts
    }

    /// Handles one message; see `next`. The page is drawn again after each.
    #[verifier::rlimit(60)]
    #[verifier::spinoff_prover]
    pub fn update(&mut self, msg: Msg) -> (acts: Vec<Action>)
        requires
            accepts(*old(self), msg),
        ensures
            next(*old(self), msg, *final(self), acts@),
    {
        let mut acts: Vec<Action> = Vec::new();
        match msg {
            Msg::Follow => {
                let company_uuid = match &self.company {
                    Some(c) => c.uuid.clone(),
                    None => String::new(),
                };
                acts.push(Action::Query(SupplierRequest::AddFav { company_uuid }));
            },
            Msg::UnFollow => {
                let company_uuid = match &self.company {
                    Some(c) => c.uuid.clone(),
                    None => String::new(),
                };
                acts.push(Action::Query(SupplierRequest::DeleteFav { company_uuid }));
            },
            Msg::AddFollow(res) => match res {
                Ok(done) => {
                    if done {
                        self.subscribers = self.subscribers + 1;
                        self.is_followed = true;
                    }
                },
                Err(e) => {
                    acts.push(Action::Send(Msg::ResponseError(e)));
                },
            },
            Msg::DelFollow(res) => match res {
                Ok(done) => {
                    if done {
                        self.subscribers = self.subscribers - 1;
                        self.is_followed = false;
                    }
                },
                Err(e) => {
                    acts.push(Action::Send(Msg::ResponseError(e)));
                },
            },
            Msg::GetCompanyResult(res) => match res {
                Ok(c) => {
                    self.subscribers = c.subscribers;
                    self.is_followed = c.is_followed;
                    self.current_company_uuid = c.uuid.clone();
                    self.company = Some(c);
                },
                Err(e) => {
                    acts.push(Action::Send(Msg::ResponseError(e)));
                },
            },
            Msg::ChangeTab(tab) => {
                self.company_tab = tab;
            },
            Msg::ResponseError(e) => {
                self.error = Some(e);
            },
            Msg::ClearError => {
                self.error = None;
            },
            Msg::Ignore => {},
        }
        acts
    }
}

} // verus!
