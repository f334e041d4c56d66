//! The page that registers a new standard.

use vstd::prelude::*;
use crate::common::{
    NamedId, CompanyShort, usize_or_zero, decimal_usize, parse_publication_date, publication_date_of,
};
use crate::route::AppRoute;

verus! {

/// The standard being written; the publication date is unix seconds.
pub struct StandardCreateData {
    pub parent_standard_uuid: Option<String>,
    pub classifier: String,
    pub name: String,
    pub description: String,
    pub specified_tolerance: String,
    pub technical_committee: String,
    pub publication_at: i64,
    pub company_uuid: String,
    pub type_access_id: usize,
    pub standard_status_id: usize,
    pub region_id: usize,
}

impl StandardCreateData {
    /// A copy of the form.
    pub fn duplicate(&self) -> (d: Self)
        ensures
            d == *self,
    {
        StandardCreateData {
            parent_standard_uuid: match &self.parent_standard_uuid {
                Some(u) => Some(u.clone()),
                None => None,
            },
            classifier: self.classifier.clone(),
            name: self.name.clone(),
            description: self.description.clone(),
            specified_tolerance: self.specified_tolerance.clone(),
            technical_committee: self.technical_committee.clone(),
            publication_at: self.publication_at,
            company_uuid: self.company_uuid.clone(),
            type_access_id: self.type_access_id,
            standard_status_id: self.standard_status_id,
            region_id: self.region_id,
        }
    }
}

/// The option lists of the page.
pub struct CreateStandardLists {
    pub companies: Vec<CompanyShort>,
    pub standard_statuses: Vec<NamedId>,
    pub regions: Vec<NamedId>,
    pub types_access: Vec<NamedId>,
}

/// A request to the server or to the browser.
pub enum StandardCreateRequest {
    /// The option lists, for the signed-in user.
    LoadLists { user_uuid: String },
    Register(StandardCreateData),
    /// Remember that the login page should lead back here.
    SetHistoryBack,
}

/// What the page reacts to; replies arrive decoded, `Err` holding the
/// message of a failed reply.
pub enum Msg {
    RequestManager,
    RequestCreateStandardData,
    GetListOpt(Result<CreateStandardLists, String>),
    GetCreateStandardResult(Result<String, String>),
    UpdateClassifier(String),
    UpdateName(String),
    UpdateDescription(String),
    UpdateSpecifiedTolerance(String),
    UpdateTechnicalCommittee(String),
    UpdatePublicationAt(String),
    UpdateTypeAccessId(String),
    UpdateCompanyUuid(String),
    UpdateStandardStatusId(String),
    UpdateRegionId(String),
    ResponseError(String),
    ClearError,
    Ignore,
}

/// What a transition asks for.
pub enum Action {
    Query(StandardCreateRequest),
    Route(AppRoute),
    Send(Msg),
}

/// The state of the page.
pub struct CreateStandard {
    pub error: Option<String>,
    pub request_standard: StandardCreateData,
    pub company_list: Vec<CompanyShort>,
    pub standard_statuses: Vec<NamedId>,
    pub regions: Vec<NamedId>,
    pub types_access: Vec<NamedId>,
    pub disable_create_btn: bool,
}

/// No action.
pub open spec fn none() -> Seq<Action> {
    Seq::<Action>::empty()
}

/// The owner that the form names: its own, or the first listed company
/// where it names none (`None` where there is none either).
pub open spec fn owner_of(s: CreateStandard) -> Option<Seq<char>> {
    if s.request_standard.company_uuid@.len() > 0 {
        Some(s.request_standard.company_uuid@)
    } else if s.company_list@.len() > 0 {
        Some(s.company_list@[0].uuid@)
    } else {
        None
    }
}

/// The standard can be registered: it has an owner, and its classifier,
/// name, description, tolerance and committee are given.
pub open spec fn form_complete(s: CreateStandard) -> bool {
    &&& owner_of(s).is_some()
    &&& s.request_standard.classifier@.len() > 0
    &&& s.request_standard.name@.len() > 0
    &&& s.request_standard.description@.len() > 0
    &&& s.request_standard.specified_tolerance@.len() > 0
    &&& s.request_standard.technical_committee@.len() > 0
}

/// The form with one field changed.
pub open spec fn with_form(s: CreateStandard, f: StandardCreateData) -> CreateStandard {
    CreateStandard { request_standard: f, ..s }
}

/// The transition of the page: from `s`, message `m` leads to `t` and asks
/// for `acts`.
pub open spec fn next(s: CreateStandard, m: Msg, t: CreateStandard, acts: Seq<Action>) -> bool {
    let f = s.request_standard;
    match m {
        Msg::RequestManager => (if f.company_uuid@.len() == 0 && s.company_list@.len() > 0 {
                t == with_form(s, StandardCreateData { company_uuid: s.company_list@[0].uuid, ..f })
            } else {
                t == s
            })
            && acts == (if form_complete(s) { seq![Action::Send(Msg::RequestCreateStandardData)] } else { none() }),
        Msg::RequestCreateStandardData => t == s && acts == seq![Action::Query(StandardCreateRequest::Register(f))],
        Msg::GetListOpt(Ok(lists)) => t == (CreateStandard {
                company_list: lists.companies,
                standard_statuses: lists.standard_statuses,
                regions: lists.regions,
                types_access: lists.types_access,
                ..s
            })
            && acts == none(),
        Msg::GetCreateStandardResult(Ok(uuid)) => t == s
            && acts == (if uuid@.len() == 0 { none() } else { seq![Action::Route(AppRoute::StandardSettings(uuid))] }),
        Msg::GetListOpt(Err(e)) | Msg::GetCreateStandardResult(Err(e)) =>
            t == s && acts == seq![Action::Send(Msg::ResponseError(e))],
        Msg::UpdateClassifier(v) => t == with_form(s, StandardCreateData { classifier: v, ..f }) && acts == none(),
        Msg::UpdateName(v) => t == with_form(s, StandardCreateData { name: v, ..f }) && acts == none(),
        Msg::UpdateDescription(v) => t == with_form(s, StandardCreateData { description: v, ..f }) && acts == none(),
        Msg::UpdateSpecifiedTolerance(v) => t == with_form(s, StandardCreateData { specified_tolerance: v, ..f })
            && acts == none(),
        Msg::UpdateTechnicalCommittee(v) => t == with_form(s, StandardCreateData { technical_committee: v, ..f })
            && acts == none(),
        Msg::UpdatePublicationAt(v) => t == (match publication_date_of(v@) {
                Some(at) => with_form(s, StandardCreateData { publication_at: at, ..f }),
                None => s,
            })
            && acts == none(),
        Msg::UpdateTypeAccessId(v) => t == with_form(s, StandardCreateData {
                type_access_id: match decimal_usize(v@) { Some(x) => x, None => 0 },
                ..f
            })
            && acts == none(),
        Msg::UpdateCompanyUuid(v) => t == with_form(s, StandardCreateData { company_uuid: v, ..f }) && acts == none(),
        Msg::UpdateStandardStatusId(v) => t == with_form(s, StandardCreateData {
                standard_status_id: match decimal_usize(v@) { Some(x) => x, None => 0 },
                ..f
            })
            && acts == none(),
        Msg::UpdateRegionId(v) => t == with_form(s, StandardCreateData {
                region_id: match decimal_usize(v@) { Some(x) => x, None => 0 },
                ..f
            })
            && acts == none(),
        Msg::ResponseError(e) => t == (CreateStandard { error: Some(e), ..s }) && acts == none(),
        Msg::ClearError => t == (CreateStandard { error: None, ..s }) && acts == none(),
        Msg::Ignore => t == s && acts == none(),
    }
}

/// Form law: what is typed into a field is what the registration sends in
/// that field, and the other fields keep what they held; a select box that
/// holds a number sends that number.
pub proof fn lemma_typed_value_is_registered(
    s: CreateStandard,
    m: Msg,
    t: CreateStandard,
    a1: Seq<Action>,
    u: CreateStandard,
    a2: Seq<Action>,
)
    requires
        next(s, m, t, a1),
        next(t, Msg::RequestCreateStandardData, u, a2),
    ensures
        a2.len() == 1,
        a2[0] matches Action::Query(StandardCreateRequest::Register(f)) && {
            let g = s.request_standard;
            &&& (m matches Msg::UpdateClassifier(v) ==> f.classifier == v && f.name == g.name)
            &&& (m matches Msg::UpdateName(v) ==> f.name == v && f.classifier == g.classifier && f.description == g.description)
            &&& (m matches Msg::UpdateDescription(v) ==> f.description == v && f.name == g.name)
            &&& (m matches Msg::UpdateSpecifiedTolerance(v) ==> f.specified_tolerance == v && f.name == g.name)
            &&& (m matches Msg::UpdateTechnicalCommittee(v) ==> f.technical_committee == v && f.name == g.name)
            &&& (m matches Msg::UpdateCompanyUuid(v) ==> f.company_uuid == v && f.name == g.name)
            &&& (m matches Msg::UpdateTypeAccessId(v) ==> decimal_usize(v@) matches Some(x) ==> f.type_access_id == x)
            &&& (m matches Msg::UpdateStandardStatusId(v) ==> decimal_usize(v@) matches Some(x) ==> f.standard_status_id == x)
            &&& (m matches Msg::UpdateRegionId(v) ==> decimal_usize(v@) matches Some(x) ==> f.region_id == x)
        },
{
}

/// What the page does for a visitor who is not signed in: remember to
/// come back, and go to the login page.
pub open spec fn login_actions(logged_user: Option<String>) -> Seq<Action> {
    if logged_user.is_none() {
        seq![Action::Query(StandardCreateRequest::SetHistoryBack), Action::Route(AppRoute::Login)]
    } else {
        none()
    }
}

impl CreateStandard {
    /// Takes the publication date read from its field (`parsed`, unix
    /// seconds): a date replaces the form's, no date leaves it as it was.
    pub fn apply_publication_at(&mut self, parsed: Option<i64>)
        ensures
            *final(self) == (match parsed {
                Some(at) => with_form(*old(self), StandardCreateData { publication_at: at, ..old(self).request_standard }),
                None => *old(self),
            }),
    {
        if let Some(at) = parsed {
            self.request_standard.publication_at = at;
        }
    }

    /// The page as first created, with the empty form `request_standard`.
    pub fn new(request_standard: StandardCreateData) -> (s: Self)
        ensures
            s.error.is_none(),
            s.request_standard == request_standard,
            s.company_list@.len() == 0 && s.standard_statuses@.len() == 0,
            s.regions@.len() == 0 && s.types_access@.len() == 0,
            !s.disable_create_btn,
    {
        CreateStandard {
            error: None,
            request_standard,
            company_list: Vec::new(),
            standard_statuses: Vec::new(),
            regions: Vec::new(),
            types_access: Vec::new(),
            disable_create_btn: false,
        }
    }

    /// What showing the page asks for: the login page (leading back here)
    /// for a visitor who is not signed in, and the option lists the first
    /// time.
    pub fn on_render(&self, first_render: bool, logged_user: Option<String>) -> (acts: Vec<Action>)
        ensures
            acts@.len() == login_actions(logged_user).len() + (if first_render { 1int } else { 0 }),
            acts@.subrange(0, login_actions(logged_user).len() as int) == login_actions(logged_user),
            first_render ==> (acts@.last() matches Action::Query(StandardCreateRequest::LoadLists { user_uuid })
                && user_uuid@ == (match logged_user { Some(u) => u@, None => Seq::<char>::empty() })),
    {
        let mut acts: Vec<Action> = Vec::new();
        let user_uuid = match logged_user {
            Some(u) => u,
            None => {
                acts.push(Action::Query(StandardCreateRequest::SetHistoryBack));
                acts.push(Action::Route(AppRoute::Login));
                String::new()
            },
        };
        assert(acts@ =~= login_actions(logged_user));
        if first_render {
            acts.push(Action::Query(StandardCreateRequest::LoadLists { user_uuid }));
            assert(acts@.subrange(0, login_actions(logged_user).len() as int) == login_actions(logged_user));
        }
        acts
    }

    /// Handles one message; see `next`.
    #[verifier::rlimit(60)]
    #[verifier::spinoff_prover]
    pub fn update(&mut self, msg: Msg) -> (acts: Vec<Action>)
        ensures
            next(*old(self), msg, *final(self), acts@),
    {
        let mut acts: Vec<Action> = Vec::new();
        match msg {
            Msg::RequestManager => {
                let ghost s0 = *self;
                let mut flag = true;
                if self.request_standard.company_uuid.as_str().is_empty() {
                    if self.company_list.len() > 0 {
                        self.request_standard.company_uuid = self.company_list[0].uuid.clone();
                    } else {
                        flag = false;
                    }
                }
                if self.request_standard.classifier.as_str().is_empty() {
                    flag = false;
                }
                if self.request_standard.name.as_str().is_empty() {
                    flag = false;
                }
                if self.request_standard.description.as_str().is_empty() {
                    flag = false;
                }
                if self.request_standard.specified_tolerance.as_str().is_empty() {
                    flag = false;
                }
                if self.request_standard.technical_committee.as_str().is_empty() {
                    flag = false;
                }
                assert(flag == form_complete(s0));
                if flag {
                    acts.push(Action::Send(Msg::RequestCreateStandardData));
                }
            },
            Msg::RequestCreateStandardData => {
                acts.push(Action::Query(StandardCreateRequest::Register(self.request_standard.duplicate())));
            },
            Msg::GetListOpt(res) => match res {
                Ok(lists) => {
                    self.company_list = lists.companies;
                    self.standard_statuses = lists.standard_statuses;
                    self.regions = lists.regions;
                    self.types_access = lists.types_access;
                },
                Err(e) => {
                    acts.push(Action::Send(Msg::ResponseError(e)));
                },
            },
            Msg::GetCreateStandardResult(res) => match res {
                Ok(uuid) => {
                    if !uuid.as_str().is_empty() {
                        acts.push(Action::Route(AppRoute::StandardSettings(uuid)));
                    }
                },
                Err(e) => {
                    acts.push(Action::Send(Msg::ResponseError(e)));
                },
            },
            Msg::UpdateClassifier(v) => {
                self.request_standard.classifier = v;
            },
            Msg::UpdateName(v) => {
                self.request_standard.name = v;
            },
            Msg::UpdateDescription(v) => {
                self.request_standard.description = v;
            },
            Msg::UpdateSpecifiedTolerance(v) => {
                self.request_standard.specified_tolerance = v;
            },
            Msg::UpdateTechnicalCommittee(v) => {
                self.request_standard.technical_committee = v;
            },
            Msg::UpdatePublicationAt(v) => {
                let parsed = parse_publication_date(v.as_str());
                self.apply_publication_at(parsed);
            },
            Msg::UpdateTypeAccessId(v) => {
                self.request_standard.type_access_id = usize_or_zero(v.as_str());
            },
            Msg::UpdateCompanyUuid(v) => {
                self.request_standard.company_uuid = v;
            },
            Msg::UpdateStandardStatusId(v) => {
                self.request_standard.standard_status_id = usize_or_zero(v.as_str());
            },
            Msg::UpdateRegionId(v) => {
                self.request_standard.region_id = usize_or_zero(v.as_str());
            },
            Msg::ResponseError(e) => {
                self.error = Some(e);
            },
            Msg::ClearError => {
                self.error = None;
            },
            Msg::Ignore => {},
        }
        acts
    }
}

/// Registration law: the standard is sent exactly when the form is
/// complete, and with an owner: the one chosen, or else the first listed
/// company.
pub proof fn lemma_register_only_complete(
    s: CreateStandard,
    t: CreateStandard,
    a1: Seq<Action>,
    u: CreateStandard,
    a2: Seq<Action>,
)
    requires
        next(s, Msg::RequestManager, t, a1),
        next(t, Msg::RequestCreateStandardData, u, a2),
    ensures
        a1.len() > 0 <==> form_complete(s),
        form_complete(s) ==> (a2[0] matches Action::Query(StandardCreateRequest::Register(d))
            && Some(d.company_uuid@) == owner_of(s)),
{
}

} // verus!
