//! The page that registers a new company.

use vstd::prelude::*;
use crate::common::{NamedId, i64_or, decimal_i64};
use crate::route::AppRoute;

verus! {

/// The data of a company to register.
pub struct CompanyCreateInfo {
    pub orgname: String,
    pub shortname: String,
    pub inn: String,
    pub phone: String,
    pub email: String,
    pub description: String,
    pub address: String,
    pub site_url: String,
    pub time_zone: String,
    pub region_id: i64,
    pub company_type_id: i64,
    pub type_access_id: i64,
}

/// The form a new page starts with: empty texts, and the first entry of
/// each select box.
pub open spec fn initial_form(f: CompanyCreateInfo) -> bool {
    &&& f.orgname@.len() == 0
    &&& f.shortname@.len() == 0
    &&& f.inn@.len() == 0
    &&& f.phone@.len() == 0
    &&& f.email@.len() == 0
    &&& f.description@.len() == 0
    &&& f.address@.len() == 0
    &&& f.site_url@.len() == 0
    &&& f.time_zone@.len() == 0
    &&& f.region_id == 1
    &&& f.company_type_id == 1
    &&& f.type_access_id == 1
}

/// The id chosen in a select box: the number it holds, or the first entry
/// (1) where it holds none.
pub open spec fn selected_id(v: Seq<char>) -> i64 {
    match decimal_i64(v) {
        Some(n) => n,
        None => 1,
    }
}

impl CompanyCreateInfo {
    /// The form a new page starts with; see `initial_form`.
    pub fn new() -> (f: Self)
        ensures
            initial_form(f),
    {
        CompanyCreateInfo {
            orgname: String::new(),
            shortname: String::new(),
            inn: String::new(),
            phone: String::new(),
            email: String::new(),
            description: String::new(),
            address: String::new(),
            site_url: String::new(),
            time_zone: String::new(),
            region_id: 1,
            company_type_id: 1,
            type_access_id: 1,
        }
    }

    /// A copy of the form.
    pub fn duplicate(&self) -> (f: Self)
        ensures
            f == *self,
    {
        CompanyCreateInfo {
            orgname: self.orgname.clone(),
            shortname: self.shortname.clone(),
            inn: self.inn.clone(),
            phone: self.phone.clone(),
            email: self.email.clone(),
            description: self.description.clone(),
            address: self.address.clone(),
            site_url: self.site_url.clone(),
            time_zone: self.time_zone.clone(),
            region_id: self.region_id,
            company_type_id: self.company_type_id,
            type_access_id: self.type_access_id,
        }
    }
}

/// The kind of input of a form field by its id: the e-mail and password
/// fields have their own kinds, every other field takes text.
pub open spec fn input_type_for(id: Seq<char>) -> Seq<char> {
    if id == "email"@ {
        "email"@
    } else if id == "password"@ {
        "password"@
    } else {
        "text"@
    }
}

/// See `input_type_for`.
pub fn input_type_of(id: &str) -> (t: &'static str)
    ensures
        t@ == input_type_for(id@),
{
    if crate::route::same_text(id, "email") {
        "email"
    } else if crate::route::same_text(id, "password") {
        "password"
    } else {
        "text"
    }
}

/// The option lists of the form.
pub struct CreateCompanyLists {
    pub regions: Vec<NamedId>,
    pub company_types: Vec<NamedId>,
    pub types_access: Vec<NamedId>,
}

/// A request to the server.
pub enum CreateCompanyRequest {
    /// The regions, company types and access types.
    LoadLists,
    /// Register the company; the reply holds its uuid.
    Register(CompanyCreateInfo),
}

/// What the page reacts to; replies arrive decoded, `Err` holding the
/// message of a failed reply.
pub enum Msg {
    RequestCreateCompany,
    ResponseError(String),
    GetCreateCompanyResult(Result<String, String>),
    UpdateTypeAccessId(String),
    UpdateOrgname(String),
    UpdateShortname(String),
    UpdateInn(String),
    UpdatePhone(String),
    UpdateEmail(String),
    UpdateDescription(String),
    UpdateAddress(String),
    UpdateSiteUrl(String),
    UpdateTimeZone(String),
    UpdateCompanyTypeId(String),
    UpdateRegionId(String),
    UpdateList(Result<CreateCompanyLists, String>),
    Ignore,
}

/// What a transition asks for.
pub enum Action {
    Query(CreateCompanyRequest),
    Route(AppRoute),
    Send(Msg),
}

/// The state of the page.
pub struct CreateCompany {
    pub error: Option<String>,
    pub current_user_uuid: String,
    pub request_company: CompanyCreateInfo,
    pub regions: Vec<NamedId>,
    pub company_types: Vec<NamedId>,
    pub types_access: Vec<NamedId>,
}

/// No action.
pub open spec fn none() -> Seq<Action> {
    Seq::<Action>::empty()
}

/// The transition of the page: from `s`, message `m` leads to `t` and asks
/// for `acts`.
pub open spec fn next(s: CreateCompany, m: Msg, t: CreateCompany, acts: Seq<Action>) -> bool {
    let f = s.request_company;
    match m {
        Msg::RequestCreateCompany => t == s && acts == seq![Action::Query(CreateCompanyRequest::Register(f))],
        Msg::ResponseError(e) => t == (CreateCompany { error: Some(e), ..s }) && acts == none(),
        Msg::GetCreateCompanyResult(Ok(uuid)) => t == s && acts == seq![Action::Route(AppRoute::ShowCompany(uuid))],
        Msg::GetCreateCompanyResult(Err(e)) => t == s && acts == seq![Action::Send(Msg::ResponseError(e))],
        Msg::UpdateTypeAccessId(v) => t == (CreateCompany {
                request_company: CompanyCreateInfo { type_access_id: selected_id(v@), ..f },
                ..s
            }) && acts == none(),
        Msg::UpdateOrgname(v) => t == (CreateCompany { request_company: CompanyCreateInfo { orgname: v, ..f }, ..s })
            && acts == none(),
        Msg::UpdateShortname(v) => t == (CreateCompany { request_company: CompanyCreateInfo { shortname: v, ..f }, ..s })
            && acts == none(),
        Msg::UpdateInn(v) => t == (CreateCompany { request_company: CompanyCreateInfo { inn: v, ..f }, ..s })
            && acts == none(),
        Msg::UpdatePhone(v) => t == (CreateCompany { request_company: CompanyCreateInfo { phone: v, ..f }, ..s })
            && acts == none(),
        Msg::UpdateEmail(v) => t == (CreateCompany { request_company: CompanyCreateInfo { email: v, ..f }, ..s })
            && acts == none(),
        Msg::UpdateDescription(v) => t == (CreateCompany {
                request_company: CompanyCreateInfo { description: v, ..f },
                ..s
            }) && acts == none(),
        Msg::UpdateAddress(v) => t == (CreateCompany { request_company: CompanyCreateInfo { address: v, ..f }, ..s })
            && acts == none(),
        Msg::UpdateSiteUrl(v) => t == (CreateCompany { request_company: CompanyCreateInfo { site_url: v, ..f }, ..s })
            && acts == none(),
        Msg::UpdateTimeZone(v) => t == (CreateCompany { request_company: CompanyCreateInfo { time_zone: v, ..f }, ..s })
            && acts == none(),
        Msg::UpdateCompanyTypeId(v) => t == (CreateCompany {
                request_company: CompanyCreateInfo { company_type_id: selected_id(v@), ..f },
                ..s
            }) && acts == none(),
        Msg::UpdateRegionId(v) => t == (CreateCompany {
                request_company: CompanyCreateInfo { region_id: selected_id(v@), ..f },
                ..s
            }) && acts == none(),
        Msg::UpdateList(Ok(lists)) => t == (CreateCompany {
                regions: lists.regions,
                company_types: lists.company_types,
                types_access: lists.types_access,
                ..s
            }) && acts == none(),
        Msg::UpdateList(Err(e)) => t == (CreateCompany { error: Some(e), ..s }) && acts == none(),
        Msg::Ignore => t == s && acts == none(),
    }
}

/// What showing the page asks for: a visitor who is not signed in is sent
/// to the login page, and the option lists are loaded on the first showing.
pub open spec fn rendered(first_render: bool, logged_in: bool, acts: Seq<Action>) -> bool {
    let login = if logged_in { none() } else { seq![Action::Route(AppRoute::Login)] };
    acts == (if first_render { login.push(Action::Query(CreateCompanyRequest::LoadLists)) } else { login })
}

/// Registration law: asking to create the company sends the form exactly
/// as it stands and changes nothing on the page; a registered company's
/// page is opened, and a refused registration is shown as an error.
pub proof fn lemma_register_sends_form(s: CreateCompany, t: CreateCompany, acts: Seq<Action>)
    requires
        next(s, Msg::RequestCreateCompany, t, acts),
    ensures
        t == s,
        acts.len() == 1,
        acts[0] == Action::Query(CreateCompanyRequest::Register(s.request_company)),
{
}

/// Form law: what is typed into a field is what the registration sends in
/// that field, and the other fields keep what they held; a select box sends
/// the id it was set to.
pub proof fn lemma_typed_value_is_registered(
    s: CreateCompany,
    m: Msg,
    t: CreateCompany,
    a1: Seq<Action>,
    u: CreateCompany,
    a2: Seq<Action>,
)
    requires
        next(s, m, t, a1),
        next(t, Msg::RequestCreateCompany, u, a2),
    ensures
        a2.len() == 1,
        a2[0] matches Action::Query(CreateCompanyRequest::Register(f)) && {
            let g = s.request_company;
            &&& (m matches Msg::UpdateOrgname(v) ==> f.orgname == v && f.inn == g.inn && f.email == g.email)
            &&& (m matches Msg::UpdateShortname(v) ==> f.shortname == v && f.orgname == g.orgname)
            &&& (m matches Msg::UpdateInn(v) ==> f.inn == v && f.orgname == g.orgname)
            &&& (m matches Msg::UpdatePhone(v) ==> f.phone == v && f.email == g.email)
            &&& (m matches Msg::UpdateEmail(v) ==> f.email == v && f.phone == g.phone)
            &&& (m matches Msg::UpdateDescription(v) ==> f.description == v && f.orgname == g.orgname)
            &&& (m matches Msg::UpdateAddress(v) ==> f.address == v && f.orgname == g.orgname)
            &&& (m matches Msg::UpdateSiteUrl(v) ==> f.site_url == v && f.orgname == g.orgname)
            &&& (m matches Msg::UpdateTimeZone(v) ==> f.time_zone == v && f.orgname == g.orgname)
            &&& (m matches Msg::UpdateCompanyTypeId(v) ==> f.company_type_id == selected_id(v@) && f.region_id == g.region_id)
            &&& (m matches Msg::UpdateRegionId(v) ==> f.region_id == selected_id(v@) && f.company_type_id == g.company_type_id)
            &&& (m matches Msg::UpdateTypeAccessId(v) ==> f.type_access_id == selected_id(v@) && f.region_id == g.region_id)
        },
{
}

/// Select law: a select box that holds no number chooses the first entry,
/// and one that holds a number chooses it.
pub proof fn lemma_selected_id(v: Seq<char>)
    ensures
        decimal_i64(v).is_none() ==> selected_id(v) == 1,
        decimal_i64(v).is_some() ==> selected_id(v) == decimal_i64(v).unwrap(),
{
}

impl CreateCompany {
    /// Whether the option of the company type `id` shows as chosen.
    pub fn company_type_selected(&self, id: usize) -> (r: bool)
        ensures
            r == (id as i64 == self.request_company.company_type_id),
    {
        id as i64 == self.request_company.company_type_id
    }

    /// Whether the option of the region `id` shows as chosen.
    pub fn region_selected(&self, id: usize) -> (r: bool)
        ensures
            r == (id as i64 == self.request_company.region_id),
    {
        id as i64 == self.request_company.region_id
    }

    /// Whether the option of the access type `id` shows as chosen.
    pub fn type_access_selected(&self, id: usize) -> (r: bool)
        ensures
            r == (id as i64 == self.request_company.type_access_id),
    {
        id as i64 == self.request_company.type_access_id
    }

    /// The page as first created for the signed-in user `current_user_uuid`
    /// (empty for a visitor).
    pub fn new(current_user_uuid: String) -> (s: Self)
        ensures
            s.error.is_none(),
            s.current_user_uuid == current_user_uuid,
            initial_form(s.request_company),
            s.regions@.len() == 0,
            s.company_types@.len() == 0,
            s.types_access@.len() == 0,
    {
        CreateCompany {
            error: None,
            current_user_uuid,
            request_company: CompanyCreateInfo::new(),
            regions: Vec::new(),
            company_types: Vec::new(),
            types_access: Vec::new(),
        }
    }

    /// Handles the showing of the page; see `rendered`.
    pub fn on_render(&self, first_render: bool, logged_in: bool) -> (acts: Vec<Action>)
        ensures
            rendered(first_render, logged_in, acts@),
    {
        let mut acts: Vec<Action> = Vec::new();
        if !logged_in {
            acts.push(Action::Route(AppRoute::Login));
        }
        if first_render {
            acts.push(Action::Query(CreateCompanyRequest::LoadLists));
        }
        acts
    }

    /// Takes the signed-in user given to the page; the page is drawn again
    /// only when the user changed.
    pub fn changed(&mut self, current_user_uuid: String) -> (redraw: bool)
        ensures
            redraw == (current_user_uuid@ != old(self).current_user_uuid@),
            *final(self) == (CreateCompany { current_user_uuid: final(self).current_user_uuid, ..*old(self) }),
            final(self).current_user_uuid@ == current_user_uuid@,
    {
        if crate::route::same_text(current_user_uuid.as_str(), self.current_user_uuid.as_str()) {
            false
        } else {
            self.current_user_uuid = current_user_uuid;
            true
        }
    }

    /// Handles one message; see `next`. The page is drawn again after each.
    #[verifier::rlimit(40)]
    pub fn update(&mut self, msg: Msg) -> (acts: Vec<Action>)
        ensures
            next(*old(self), msg, *final(self), acts@),
    {
        let mut acts: Vec<Action> = Vec::new();
        match msg {
            Msg::RequestCreateCompany => {
                acts.push(Action::Query(CreateCompanyRequest::Register(self.request_company.duplicate())));
            },
            Msg::ResponseError(e) => {
                self.error = Some(e);
            },
            Msg::GetCreateCompanyResult(res) => match res {
                Ok(uuid) => {
                    acts.push(Action::Route(AppRoute::ShowCompany(uuid)));
                },
                Err(e) => {
                    acts.push(Action::Send(Msg::ResponseError(e)));
                },
            },
            Msg::UpdateTypeAccessId(v) => {
                self.request_company.type_access_id = i64_or(v.as_str(), 1);
            },
            Msg::UpdateOrgname(v) => {
                self.request_company.orgname = v;
            },
            Msg::UpdateShortname(v) => {
                self.request_company.shortname = v;
            },
            Msg::UpdateInn(v) => {
                self.request_company.inn = v;
            },
            Msg::UpdatePhone(v) => {
                self.request_company.phone = v;
            },
            Msg::UpdateEmail(v) => {
                self.request_company.email = v;
            },
            Msg::UpdateDescription(v) => {
                self.request_company.description = v;
            },
            Msg::UpdateAddress(v) => {
                self.request_company.address = v;
            },
            Msg::UpdateSiteUrl(v) => {
                self.request_company.site_url = v;
            },
            Msg::UpdateTimeZone(v) => {
                self.request_company.time_zone = v;
            },
            Msg::UpdateCompanyTypeId(v) => {
                self.request_company.company_type_id = i64_or(v.as_str(), 1);
            },
            Msg::UpdateRegionId(v) => {
                self.request_company.region_id = i64_or(v.as_str(), 1);
            },
            Msg::UpdateList(res) => match res {
                Ok(lists) => {
                    self.regions = lists.regions;
                    self.company_types = lists.company_types;
                    self.types_access = lists.types_access;
                },
                Err(e) => {
                    self.error = Some(e);
                },
            },
            Msg::Ignore => {},
        }
        acts
    }
}

} // verus!
