//! The settings page of a company: its data, access, and removal confirmed
//! by a second click.

use vstd::prelude::*;
use crate::common::{NamedId, i64_or_zero, decimal_i64};
use crate::company::{CompanyInfo, CompanyUpdateInfo, company_form_of, empty_company_form};
use crate::route::{AppRoute, route_target, strip_leading};

verus! {

/// The parts of the page, in the order of its side menu.
pub enum Menu {
    OpenCompany,
    Company,
    UpdateFavicon,
    Represent,
    Certificates,
    Spec,
    Access,
    RemoveCompany,
    Member,
}

/// An entry of the side menu: its title key, its icon classes, its part
/// and an extra class.
pub struct MenuItemTemplate {
    pub lk_title: &'static str,
    pub icon_classes: Vec<&'static str>,
    pub tab: Menu,
    pub custom_class: Option<&'static str>,
}

/// The parts in the order of the side menu.
pub open spec fn menu_tabs() -> Seq<Menu> {
    seq![
        Menu::OpenCompany, Menu::Company, Menu::UpdateFavicon, Menu::Represent, Menu::Certificates,
        Menu::Spec, Menu::Member, Menu::Access, Menu::RemoveCompany,
    ]
}

/// The side menu of the page: its parts in the order of `menu_tabs`, only
/// the removal marked with the danger background.
pub fn menu_config() -> (items: Vec<MenuItemTemplate>)
    ensures
        items@.len() == menu_tabs().len(),
        forall|i: int| 0 <= i < items@.len() ==> #[trigger] items@[i].tab == menu_tabs()[i],
        forall|i: int| 0 <= i < items@.len() ==> (#[trigger] items@[i].custom_class is Some <==> items@[i].tab == Menu::RemoveCompany),
        forall|i: int| 0 <= i < items@.len() ==> (#[trigger] items@[i].custom_class matches Some(c)
            ==> c@ == "has-background-danger-light"@),
{
    let mut items: Vec<MenuItemTemplate> = Vec::new();
    items.push(MenuItemTemplate { lk_title: "OpenCompanyLabel", icon_classes: vec!["fas", "fa-angle-double-left"], tab: Menu::OpenCompany, custom_class: None });
    items.push(MenuItemTemplate { lk_title: "Company", icon_classes: vec!["fas", "fa-building"], tab: Menu::Company, custom_class: None });
    items.push(MenuItemTemplate { lk_title: "CompanyLogo", icon_classes: vec!["fas", "fa-image"], tab: Menu::UpdateFavicon, custom_class: None });
    items.push(MenuItemTemplate { lk_title: "Representations", icon_classes: vec!["fas", "fa-industry"], tab: Menu::Represent, custom_class: None });
    items.push(MenuItemTemplate { lk_title: "CertificatesLabel", icon_classes: vec!["fas", "fa-certificate"], tab: Menu::Certificates, custom_class: None });
    items.push(MenuItemTemplate { lk_title: "SphereOfActivity", icon_classes: vec!["fas", "fa-paperclip"], tab: Menu::Spec, custom_class: None });
    items.push(MenuItemTemplate { lk_title: "Members", icon_classes: vec!["fas", "fa-users"], tab: Menu::Member, custom_class: None });
    items.push(MenuItemTemplate { lk_title: "Access", icon_classes: vec!["fas", "fa-low-vision"], tab: Menu::Access, custom_class: None });
    items.push(MenuItemTemplate { lk_title: "RemoveCompany", icon_classes: vec!["fas", "fa-trash"], tab: Menu::RemoveCompany, custom_class: Some("has-background-danger-light") });
    items
}

/// A request to the server.
pub enum CompanyRequest {
    /// The company with the option lists.
    LoadSettingData { company_uuid: String },
    /// The company alone.
    LoadCompany { company_uuid: String },
    Update { company_uuid: String, data: CompanyUpdateInfo },
    ChangeAccess { company_uuid: String, new_type_access_id: i64 },
    Delete { company_uuid: String },
}

/// The option lists of the page.
pub struct CompanyListOptions {
    pub regions: Vec<NamedId>,
    pub company_types: Vec<NamedId>,
    pub types_access: Vec<NamedId>,
}

/// What the page reacts to; replies arrive decoded, `Err` holding the
/// message of a failed reply.
pub enum Msg {
    OpenCompany,
    SelectMenu(Menu),
    RequestUpdateCompany,
    RequestChangeAccess,
    RequestRemoveCompany,
    ReguestCompanyData,
    ResponseError(String),
    GetUpdateAccessResult(Result<bool, String>),
    GetCompanyDataResult(Result<CompanyInfo, String>),
    GetUpdateCompanyResult(Result<usize, String>),
    GetUpdateListResult(Result<CompanyListOptions, String>),
    GetRemoveCompanyResult(Result<String, String>),
    UpdateTypeAccessId(usize),
    UpdateOrgname(String),
    UpdateShortname(String),
    UpdateInn(String),
    UpdatePhone(String),
    UpdateEmail(String),
    UpdateDescription(String),
    UpdateAddress(String),
    UpdateSiteUrl(String),
    UpdateTimeZone(String),
    UpdateCompanyTypeId(String),
    UpdateRegionId(String),
    ClearError,
    Ignore,
}

/// What a transition asks for.
pub enum Action {
    Query(CompanyRequest),
    Route(AppRoute),
    Send(Msg),
}

/// Where the page stands in the browser: the signed-in user's name, if
/// any, and the route fragment.
pub struct PageEnv {
    pub logged_username: Option<String>,
    pub fragment: String,
}

/// The state of the page.
pub struct CompanySettings {
    /// The company uuid that the page was given.
    pub props_company_uuid: String,
    pub error: Option<String>,
    pub request_company: CompanyUpdateInfo,
    pub request_access: i64,
    pub company_uuid: String,
    pub current_data: Option<CompanyInfo>,
    pub regions: Vec<NamedId>,
    pub types_access: Vec<NamedId>,
    pub company_types: Vec<NamedId>,
    pub get_result_update: usize,
    pub get_result_access: bool,
    pub get_result_remove_company: bool,
    pub loading: bool,
    pub get_confirm: String,
    pub select_menu: Menu,
}

/// No action.
pub open spec fn none() -> Seq<Action> {
    Seq::<Action>::empty()
}

/// The prefix of the page's route.
pub open spec fn page_prefix() -> Seq<char> {
    "#/company/settings/"@
}

/// What showing the page does: send to the login page a visitor who is not
/// signed in, and load the company named by the route fragment when the
/// page first shows or the fragment names another company.
pub open spec fn rendered(s: CompanySettings, first_render: bool, env: PageEnv, t: CompanySettings, acts: Seq<Action>) -> bool {
    let target = strip_leading(env.fragment@, page_prefix());
    let login = if env.logged_username.is_none() { seq![Action::Route(AppRoute::Login)] } else { none() };
    if first_render || target != s.company_uuid@ {
        t.company_uuid@ == target
            && t == (CompanySettings { company_uuid: t.company_uuid, ..s })
            && acts.len() == login.len() + 1
            && acts.subrange(0, login.len() as int) == login
            && (acts.last() matches Action::Query(CompanyRequest::LoadSettingData { company_uuid }) && company_uuid@ == target)
    } else {
        t == s && acts == login
    }
}

/// The company form with one field edited.
pub open spec fn with_form(s: CompanySettings, f: CompanyUpdateInfo) -> CompanySettings {
    CompanySettings { request_company: f, ..s }
}

/// The transition of the page: from `s`, message `m` leads to `t` and asks
/// for `acts`, where `env` is where the page stands (some messages show the
/// page again).
pub open spec fn next(s: CompanySettings, m: Msg, env: PageEnv, t: CompanySettings, acts: Seq<Action>) -> bool {
    let f = s.request_company;
    match m {
        Msg::OpenCompany => t == s && acts == (match s.current_data {
                Some(d) => seq![Action::Route(AppRoute::ShowCompany(d.uuid))],
                None => none(),
            }),
        Msg::SelectMenu(menu) => {
            let s1 = CompanySettings { select_menu: menu, ..s };
            exists|t1: CompanySettings| #[trigger] rendered(s1, false, env, t1, acts)
                && t == (CompanySettings {
                    get_result_update: 0,
                    get_result_access: false,
                    get_result_remove_company: false,
                    ..t1
                })
        },
        Msg::RequestUpdateCompany => t == (CompanySettings { loading: true, ..s })
            && acts == seq![Action::Query(CompanyRequest::Update { company_uuid: s.company_uuid, data: f })],
        Msg::RequestChangeAccess => t == (CompanySettings { loading: true, ..s })
            && acts == seq![Action::Query(CompanyRequest::ChangeAccess {
                company_uuid: s.company_uuid,
                new_type_access_id: s.request_access,
            })],
        Msg::RequestRemoveCompany => if s.get_confirm@ == s.company_uuid@ {
                t == (CompanySettings { loading: true, ..s })
                    && acts == seq![Action::Query(CompanyRequest::Delete { company_uuid: s.company_uuid })]
            } else {
                t == (CompanySettings { loading: true, get_confirm: s.company_uuid, ..s }) && acts == none()
            },
        Msg::ReguestCompanyData => t == s
            && acts == seq![Action::Query(CompanyRequest::LoadCompany { company_uuid: s.company_uuid })],
        Msg::ResponseError(e) => t == (CompanySettings { error: Some(e), ..s }) && acts == none(),
        Msg::GetUpdateAccessResult(Ok(done)) => t == (CompanySettings { loading: false, get_result_access: done, ..s })
            && acts == none(),
        Msg::GetCompanyDataResult(Ok(data)) => {
            let s1 = CompanySettings {
                loading: false,
                request_company: company_form_of(data),
                current_data: Some(data),
                ..s
            };
            rendered(s1, false, env, t, acts)
        },
        Msg::GetUpdateListResult(Ok(lists)) => t == (CompanySettings {
                loading: false,
                regions: lists.regions,
                company_types: lists.company_types,
                types_access: lists.types_access,
                ..s
            })
            && acts == none(),
        Msg::GetRemoveCompanyResult(Ok(_)) => t == (CompanySettings { loading: false, get_result_remove_company: true, ..s })
            && acts == (match env.logged_username {
                Some(name) => seq![Action::Route(AppRoute::Profile(name))],
                None => seq![Action::Route(AppRoute::Home)],
            }),
        Msg::GetUpdateCompanyResult(Ok(rows)) => t == (CompanySettings { loading: false, get_result_update: rows, ..s })
            && acts == seq![Action::Send(Msg::ReguestCompanyData)],
        Msg::GetUpdateAccessResult(Err(e)) | Msg::GetCompanyDataResult(Err(e)) | Msg::GetUpdateListResult(Err(e))
        | Msg::GetRemoveCompanyResult(Err(e)) | Msg::GetUpdateCompanyResult(Err(e)) =>
            t == (CompanySettings { loading: false, ..s }) && acts == seq![Action::Send(Msg::ResponseError(e))],
        Msg::UpdateTypeAccessId(id) => t == (CompanySettings { request_access: id as i64, ..s }) && acts == none(),
        Msg::UpdateOrgname(v) => t == with_form(s, CompanyUpdateInfo { orgname: Some(v), ..f }) && acts == none(),
        Msg::UpdateShortname(v) => t == with_form(s, CompanyUpdateInfo { shortname: Some(v), ..f }) && acts == none(),
        Msg::UpdateInn(v) => t == with_form(s, CompanyUpdateInfo { inn: Some(v), ..f }) && acts == none(),
        Msg::UpdatePhone(v) => t == with_form(s, CompanyUpdateInfo { phone: Some(v), ..f }) && acts == none(),
        Msg::UpdateEmail(v) => t == with_form(s, CompanyUpdateInfo { email: Some(v), ..f }) && acts == none(),
        Msg::UpdateDescription(v) => t == with_form(s, CompanyUpdateInfo { description: Some(v), ..f }) && acts == none(),
        Msg::UpdateAddress(v) => t == with_form(s, CompanyUpdateInfo { address: Some(v), ..f }) && acts == none(),
        Msg::UpdateSiteUrl(v) => t == with_form(s, CompanyUpdateInfo { site_url: Some(v), ..f }) && acts == none(),
        Msg::UpdateTimeZone(v) => t == with_form(s, CompanyUpdateInfo { time_zone: Some(v), ..f }) && acts == none(),
        Msg::UpdateCompanyTypeId(v) => t == with_form(s, CompanyUpdateInfo {
                company_type_id: Some(match decimal_i64(v@) { Some(x) => x, None => 0 }),
                ..f
            })
            && acts == none(),
        Msg::UpdateRegionId(v) => t == with_form(s, CompanyUpdateInfo {
                region_id: Some(match decimal_i64(v@) { Some(x) => x, None => 0 }),
                ..f
            })
            && acts == none(),
        Msg::ClearError => t == (CompanySettings { error: None, ..s }) && acts == none(),
        Msg::Ignore => t == s && acts == none(),
    }
}

/// Whether a part is the one shown.
pub fn is_active(select_menu: &Menu, tab: &Menu) -> (r: bool)
    ensures
        r == (*select_menu == *tab),
{
    match (select_menu, tab) {
        (Menu::OpenCompany, Menu::OpenCompany) | (Menu::Company, Menu::Company)
        | (Menu::UpdateFavicon, Menu::UpdateFavicon) | (Menu::Represent, Menu::Represent)
        | (Menu::Certificates, Menu::Certificates) | (Menu::Spec, Menu::Spec) | (Menu::Access, Menu::Access)
        | (Menu::RemoveCompany, Menu::RemoveCompany) | (Menu::Member, Menu::Member) => true,
        _ => false,
    }
}

/// The message that a click on a menu entry sends: leave for the company's
/// page from its first entry, else show the part.
pub fn get_action(tab: Menu) -> (m: Msg)
    ensures
        m == (if tab == Menu::OpenCompany { Msg::OpenCompany } else { Msg::SelectMenu(tab) }),
{
    match tab {
        Menu::OpenCompany => Msg::OpenCompany,
        _ => Msg::SelectMenu(tab),
    }
}

impl CompanySettings {
    /// Takes the company uuid given to the page; the page is drawn again
    /// only when it changed.
    pub fn change(&mut self, props_company_uuid: String) -> (redraw: bool)
        ensures
            redraw == (props_company_uuid@ != old(self).props_company_uuid@),
            redraw ==> *final(self) == (CompanySettings { props_company_uuid, ..*old(self) }),
            !redraw ==> *final(self) == *old(self),
    {
        if crate::route::same_text(self.props_company_uuid.as_str(), props_company_uuid.as_str()) {
            false
        } else {
            self.props_company_uuid = props_company_uuid;
            true
        }
    }

    /// The page as first created for the company `props_company_uuid`: the
    /// company part shown.
    pub fn new(props_company_uuid: String) -> (s: Self)
        ensures
            s.props_company_uuid == props_company_uuid,
            s.error.is_none(),
            empty_company_form(s.request_company),
            s.request_access == 0,
            s.company_uuid@.len() == 0,
            s.current_data.is_none(),
            s.regions@.len() == 0 && s.types_access@.len() == 0 && s.company_types@.len() == 0,
            s.get_result_update == 0 && !s.get_result_access && !s.get_result_remove_company,
            !s.loading,
            s.get_confirm@.len() == 0,
            s.select_menu == Menu::Company,
    {
        CompanySettings {
            props_company_uuid,
            error: None,
            request_company: CompanyUpdateInfo::empty(),
            request_access: 0,
            company_uuid: String::new(),
            current_data: None,
            regions: Vec::new(),
            types_access: Vec::new(),
            company_types: Vec::new(),
            get_result_update: 0,
            get_result_access: false,
            get_result_remove_company: false,
            loading: false,
            get_confirm: String::new(),
            select_menu: Menu::Company,
        }
    }

    /// Handles the showing of the page; see `rendered`.
    pub fn on_render(&mut self, first_render: bool, env: &PageEnv) -> (acts: Vec<Action>)
        ensures
            rendered(*old(self), first_render, *env, *final(self), acts@),
    {
        let mut acts: Vec<Action> = Vec::new();
        let ghost login = if env.logged_username.is_none() { seq![Action::Route(AppRoute::Login)] } else { none() };
        if env.logged_username.is_none() {
            acts.push(Action::Route(AppRoute::Login));
        }
        assert(acts@ =~= login);
        let target = route_target(env.fragment.as_str(), "#/company/settings/");
        if first_render || !(target == self.company_uuid) {
            self.company_uuid = target.clone();
            acts.push(Action::Query(CompanyRequest::LoadSettingData { company_uuid: target }));
            assert(acts@.subrange(0, login.len() as int) == login);
        }
        acts
    }

    /// Handles one message; see `next`.
    #[verifier::rlimit(80)]
    #[verifier::spinoff_prover]
    pub fn update(&mut self, msg: Msg, env: &PageEnv) -> (acts: Vec<Action>)
        ensures
            next(*old(self), msg, *env, *final(self), acts@),
    {
        let mut acts: Vec<Action> = Vec::new();
        match msg {
            Msg::OpenCompany => {
                if let Some(d) = &self.current_data {
                    acts.push(Action::Route(AppRoute::ShowCompany(d.uuid.clone())));
                }
            },
            Msg::SelectMenu(menu) => {
                self.select_menu = menu;
                let ghost s1 = *self;
                acts = self.on_render(false, env);
                let ghost t1 = *self;
                assert(rendered(s1, false, *env, t1, acts@));
                self.get_result_update = 0;
                self.get_result_access = false;
                self.get_result_remove_company = false;
            },
            Msg::RequestUpdateCompany => {
                self.loading = true;
                acts.push(Action::Query(CompanyRequest::Update {
                    company_uuid: self.company_uuid.clone(),
                    data: self.request_company.duplicate(),
                }));
            },
            Msg::RequestChangeAccess => {
                self.loading = true;
                acts.push(Action::Query(CompanyRequest::ChangeAccess {
                    company_uuid: self.company_uuid.clone(),
                    new_type_access_id: self.request_access,
                }));
            },
            Msg::RequestRemoveCompany => {
                self.loading = true;
                let delete_company_uuid = self.company_uuid.clone();
                if self.get_confirm == delete_company_uuid {
                    acts.push(Action::Query(CompanyRequest::Delete { company_uuid: delete_company_uuid }));
                } else {
                    self.get_confirm = delete_company_uuid;
                }
            },
            Msg::ReguestCompanyData => {
                acts.push(Action::Query(CompanyRequest::LoadCompany { company_uuid: self.company_uuid.clone() }));
            },
            Msg::ResponseError(e) => {
                self.error = Some(e);
            },
            Msg::GetUpdateAccessResult(res) => {
                self.loading = false;
                match res {
                    Ok(done) => {
                        self.get_result_access = done;
                    },
                    Err(e) => {
                        acts.push(Action::Send(Msg::ResponseError(e)));
                    },
                }
            },
            Msg::GetCompanyDataResult(res) => {
                self.loading = false;
                match res {
                    Ok(data) => {
                        self.request_company = CompanyUpdateInfo::from(&data);
                        self.current_data = Some(data);
                        acts = self.on_render(false, env);
                    },
                    Err(e) => {
                        acts.push(Action::Send(Msg::ResponseError(e)));
                    },
                }
            },
            Msg::GetUpdateListResult(res) => {
                self.loading = false;
                match res {
                    Ok(lists) => {
                        self.regions = lists.regions;
                        self.company_types = lists.company_types;
                        self.types_access = lists.types_access;
                    },
                    Err(e) => {
                        acts.push(Action::Send(Msg::ResponseError(e)));
                    },
                }
            },
            Msg::GetRemoveCompanyResult(res) => {
                self.loading = false;
                match res {
                    Ok(_) => {
                        self.get_result_remove_company = true;
                        match &env.logged_username {
                            Some(name) => {
                                acts.push(Action::Route(AppRoute::Profile(name.clone())));
                            },
                            None => {
                                acts.push(Action::Route(AppRoute::Home));
                            },
                        }
                    },
                    Err(e) => {
                        acts.push(Action::Send(Msg::ResponseError(e)));
                    },
                }
            },
            Msg::GetUpdateCompanyResult(res) => {
                self.loading = false;
                match res {
                    Ok(rows) => {
                        self.get_result_update = rows;
                        acts.push(Action::Send(Msg::ReguestCompanyData));
                    },
                    Err(e) => {
                        acts.push(Action::Send(Msg::ResponseError(e)));
                    },
                }
            },
            Msg::UpdateTypeAccessId(id) => {
                self.request_access = id as i64;
            },
            Msg::UpdateOrgname(v) => {
                self.request_company.orgname = Some(v);
            },
            Msg::UpdateShortname(v) => {
                self.request_company.shortname = Some(v);
            },
            Msg::UpdateInn(v) => {
                self.request_company.inn = Some(v);
            },
            Msg::UpdatePhone(v) => {
                self.request_company.phone = Some(v);
            },
            Msg::UpdateEmail(v) => {
                self.request_company.email = Some(v);
            },
            Msg::UpdateDescription(v) => {
                self.request_company.description = Some(v);
            },
            Msg::UpdateAddress(v) => {
                self.request_company.address = Some(v);
            },
            Msg::UpdateSiteUrl(v) => {
                self.request_company.site_url = Some(v);
            },
            Msg::UpdateTimeZone(v) => {
                self.request_company.time_zone = Some(v);
            },
            Msg::UpdateCompanyTypeId(v) => {
                self.request_company.company_type_id = Some(i64_or_zero(v.as_str()));
            },
            Msg::UpdateRegionId(v) => {
                self.request_company.region_id = Some(i64_or_zero(v.as_str()));
            },
            Msg::ClearError => {
                self.error = None;
            },
            Msg::Ignore => {},
        }
        acts
    }
}

/// Removal law: the first click on "remove" only arms the removal of the
/// company shown; a second click sends it.
pub proof fn lemma_remove_takes_two_clicks(
    s: CompanySettings,
    env: PageEnv,
    t: CompanySettings,
    a1: Seq<Action>,
    u: CompanySettings,
    a2: Seq<Action>,
)
    requires
        s.get_confirm@ != s.company_uuid@,
        next(s, Msg::RequestRemoveCompany, env, t, a1),
        next(t, Msg::RequestRemoveCompany, env, u, a2),
    ensures
        a1 == none(),
        a2 == seq![Action::Query(CompanyRequest::Delete { company_uuid: s.company_uuid })],
{
}

/// Showing the page never asks to delete the company.
proof fn lemma_render_asks_no_deletion(
    s: CompanySettings,
    first_render: bool,
    env: PageEnv,
    t: CompanySettings,
    acts: Seq<Action>,
    i: int,
)
    requires
        rendered(s, first_render, env, t, acts),
        0 <= i < acts.len(),
    ensures
        !(acts[i] matches Action::Query(CompanyRequest::Delete { .. })),
{
    let login = if env.logged_username.is_none() { seq![Action::Route(AppRoute::Login)] } else { none() };
    if i < login.len() {
        if first_render || strip_leading(env.fragment@, page_prefix()) != s.company_uuid@ {
            assert(acts.subrange(0, login.len() as int)[i] == acts[i]);
        }
    }
}

/// Request law: saving asks for the update of the company shown with the
/// form as edited, changing access asks for the change of its access to the
/// one chosen, and of all messages only a confirmed "remove" asks to delete
/// it, and then the company shown.
pub proof fn lemma_requests_target_shown_company(
    s: CompanySettings,
    m: Msg,
    env: PageEnv,
    t: CompanySettings,
    acts: Seq<Action>,
    i: int,
)
    requires
        next(s, m, env, t, acts),
        0 <= i < acts.len(),
    ensures
        m is RequestUpdateCompany ==> acts
            == seq![Action::Query(CompanyRequest::Update { company_uuid: s.company_uuid, data: s.request_company })],
        m is RequestChangeAccess ==> acts == seq![
            Action::Query(CompanyRequest::ChangeAccess { company_uuid: s.company_uuid, new_type_access_id: s.request_access }),
        ],
        acts[i] matches Action::Query(CompanyRequest::Delete { company_uuid }) ==> m is RequestRemoveCompany
            && s.get_confirm@ == s.company_uuid@ && company_uuid == s.company_uuid,
{
    if let Msg::SelectMenu(menu) = m {
        let s1 = CompanySettings { select_menu: menu, ..s };
        let t1 = choose|t1: CompanySettings| #[trigger] rendered(s1, false, env, t1, acts)
            && t == (CompanySettings {
                get_result_update: 0,
                get_result_access: false,
                get_result_remove_company: false,
                ..t1
            });
        lemma_render_asks_no_deletion(s1, false, env, t1, acts, i);
    }
    if let Msg::GetCompanyDataResult(Ok(data)) = m {
        let s1 = CompanySettings {
            loading: false,
            request_company: company_form_of(data),
            current_data: Some(data),
            ..s
        };
        lemma_render_asks_no_deletion(s1, false, env, t, acts, i);
    }
}

} // verus!
