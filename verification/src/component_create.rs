//! The page that registers a new component, for a user or, as its
//! supplier, for a company.

use vstd::prelude::*;
use crate::common::{NamedId, usize_or_zero, decimal_usize};
use crate::route::AppRoute;

verus! {

/// The data of a component to register.
pub struct ComponentCreateData {
    pub parent_component_uuid: String,
    pub name: String,
    pub description: String,
    pub type_access_id: usize,
    pub component_type_id: usize,
    pub actual_status_id: usize,
    pub is_base: bool,
}

/// The form a new page starts with: no parent, empty texts, the first entry
/// of each select box, not a base component.
pub open spec fn initial_form(f: ComponentCreateData) -> bool {
    &&& f.parent_component_uuid@.len() == 0
    &&& f.name@.len() == 0
    &&& f.description@.len() == 0
    &&& f.type_access_id == 1
    &&& f.component_type_id == 1
    &&& f.actual_status_id == 1
    &&& !f.is_base
}

impl ComponentCreateData {
    /// The form a new page starts with; see `initial_form`.
    pub fn new() -> (f: Self)
        ensures
            initial_form(f),
    {
        ComponentCreateData {
            parent_component_uuid: String::new(),
            name: String::new(),
            description: String::new(),
            type_access_id: 1,
            component_type_id: 1,
            actual_status_id: 1,
            is_base: false,
        }
    }

    /// A copy of the form.
    pub fn duplicate(&self) -> (f: Self)
        ensures
            f == *self,
    {
        ComponentCreateData {
            parent_component_uuid: self.parent_component_uuid.clone(),
            name: self.name.clone(),
            description: self.description.clone(),
            type_access_id: self.type_access_id,
            component_type_id: self.component_type_id,
            actual_status_id: self.actual_status_id,
            is_base: self.is_base,
        }
    }
}

/// The option lists of the form.
pub struct ComponentCreateLists {
    pub actual_statuses: Vec<NamedId>,
    pub types_access: Vec<NamedId>,
}

/// A request to the server or to the browser.
pub enum CreateComponentRequest {
    /// The actual statuses and access types.
    LoadLists,
    /// Register the component; the reply holds its uuid.
    Register(ComponentCreateData),
    /// Make the company the component's supplier, with an empty description.
    SetOwnerSupplier { component_uuid: String, company_uuid: String, description: String },
    /// Remember that the login page should lead back here.
    SetHistoryBack,
    /// Put the input focus on the element with this id.
    Focus(String),
}

/// What the page reacts to; replies arrive decoded, `Err` holding the
/// message of a failed reply.
pub enum Msg {
    RequestManager,
    RequestCreateComponentData,
    RequestChangeOwnerSupplier(String, String),
    ResponseError(String),
    GetListOpt(Result<ComponentCreateLists, String>),
    GetCreateComponentResult(Result<String, String>),
    /// The reply to the supplier request, and the new component's uuid.
    GetUpdateSetSupplierResult(Result<bool, String>, String),
    UpdateName(String),
    UpdateDescription(String),
    UpdateTypeAccessId(usize),
    UpdateActualStatusId(String),
    ClearError,
    Focuser,
    Ignore,
}

/// What a transition asks for.
pub enum Action {
    Query(CreateComponentRequest),
    Route(AppRoute),
    Send(Msg),
}

/// The state of the page.
pub struct CreateComponent {
    /// The company that the component is created for, if any.
    pub company_uuid: Option<String>,
    pub error: Option<String>,
    pub request_component: ComponentCreateData,
    pub actual_statuses: Vec<NamedId>,
    pub types_access: Vec<NamedId>,
    pub disable_create_btn: bool,
    /// Whether the name field is marked as missing.
    pub name_empty: bool,
}

/// No action.
pub open spec fn none() -> Seq<Action> {
    Seq::<Action>::empty()
}

/// The element that the focus is put on when the name is missing.
pub open spec fn name_field_id() -> Seq<char> {
    "update-component-name"@
}

/// The transition of the page: from `s`, message `m` leads to `t` and asks
/// for `acts`.
pub open spec fn next(s: CreateComponent, m: Msg, t: CreateComponent, acts: Seq<Action>) -> bool {
    let f = s.request_component;
    match m {
        Msg::RequestManager => {
            let missing = f.name@.len() == 0;
            let marked = missing || s.name_empty;
            &&& t == (CreateComponent { disable_create_btn: !missing, name_empty: marked, ..s })
            &&& acts == (if marked { seq![Action::Send(Msg::Focuser)] } else { none() })
                + (if !missing { seq![Action::Send(Msg::RequestCreateComponentData)] } else { none() })
        },
        Msg::RequestCreateComponentData => t == s && acts == seq![Action::Query(CreateComponentRequest::Register(f))],
        Msg::RequestChangeOwnerSupplier(component_uuid, company_uuid) => t == s
            && acts.len() == 1
            && (acts[0] matches Action::Query(CreateComponentRequest::SetOwnerSupplier { component_uuid: a, company_uuid: b, description })
                && a == component_uuid && b == company_uuid && description@.len() == 0),
        Msg::ResponseError(e) => t == (CreateComponent { error: Some(e), ..s }) && acts == none(),
        Msg::GetListOpt(Ok(lists)) => t == (CreateComponent {
                actual_statuses: lists.actual_statuses,
                types_access: lists.types_access,
                ..s
            }) && acts == none(),
        Msg::GetListOpt(Err(e)) | Msg::GetCreateComponentResult(Err(e)) | Msg::GetUpdateSetSupplierResult(Err(e), _) =>
            t == s && acts == seq![Action::Send(Msg::ResponseError(e))],
        Msg::GetCreateComponentResult(Ok(uuid)) => t == s && acts == (if uuid@.len() == 0 {
            none()
        } else {
            match s.company_uuid {
                Some(c) => seq![Action::Send(Msg::RequestChangeOwnerSupplier(uuid, c))],
                None => seq![Action::Route(AppRoute::ComponentSettings(uuid))],
            }
        }),
        Msg::GetUpdateSetSupplierResult(Ok(_), uuid) => t == s
            && acts == seq![Action::Route(AppRoute::ComponentSettings(uuid))],
        Msg::UpdateName(v) => t == (CreateComponent {
                request_component: ComponentCreateData { name: v, ..f },
                name_empty: false,
                ..s
            }) && acts == none(),
        Msg::UpdateDescription(v) => t == (CreateComponent {
                request_component: ComponentCreateData { description: v, ..f },
                ..s
            }) && acts == none(),
        Msg::UpdateTypeAccessId(v) => t == (CreateComponent {
                request_component: ComponentCreateData { type_access_id: v, ..f },
                ..s
            }) && acts == none(),
        Msg::UpdateActualStatusId(v) => t == (CreateComponent {
                request_component: ComponentCreateData {
                    actual_status_id: match decimal_usize(v@) {
                        Some(n) => n,
                        None => 0,
                    },
                    ..f
                },
                ..s
            }) && acts == none(),
        Msg::ClearError => t == (CreateComponent { error: None, ..s }) && acts == none(),
        Msg::Focuser => t == s && acts.len() == 1
            && (acts[0] matches Action::Query(CreateComponentRequest::Focus(id)) && id@ == name_field_id()),
        Msg::Ignore => t == s && acts == none(),
    }
}

/// What showing the page asks for: a visitor who is not signed in is sent
/// to the login page (which is to lead back here), and the option lists are
/// loaded on the first showing.
pub open spec fn rendered(first_render: bool, logged_in: bool, acts: Seq<Action>) -> bool {
    let login = if logged_in {
        none()
    } else {
        seq![Action::Query(CreateComponentRequest::SetHistoryBack), Action::Route(AppRoute::Login)]
    };
    acts == (if first_render { login.push(Action::Query(CreateComponentRequest::LoadLists)) } else { login })
}

/// The name field is marked as missing only while the name is empty.
pub open spec fn marks_only_missing(s: CreateComponent) -> bool {
    s.name_empty ==> s.request_component.name@.len() == 0
}

/// Marking law: every transition keeps `marks_only_missing`.
pub proof fn lemma_marking_kept(s: CreateComponent, m: Msg, t: CreateComponent, acts: Seq<Action>)
    requires
        marks_only_missing(s),
        next(s, m, t, acts),
    ensures
        marks_only_missing(t),
{
}

/// Form law: what is typed into a field is what the registration sends in
/// that field, and the other fields keep what they held.
pub proof fn lemma_typed_value_is_registered(
    s: CreateComponent,
    m: Msg,
    t: CreateComponent,
    a1: Seq<Action>,
    u: CreateComponent,
    a2: Seq<Action>,
)
    requires
        next(s, m, t, a1),
        next(t, Msg::RequestCreateComponentData, u, a2),
    ensures
        a2.len() == 1,
        a2[0] matches Action::Query(CreateComponentRequest::Register(f)) && {
            let g = s.request_component;
            &&& (m matches Msg::UpdateName(v) ==> f.name == v && f.description == g.description)
            &&& (m matches Msg::UpdateDescription(v) ==> f.description == v && f.name == g.name)
            &&& (m matches Msg::UpdateTypeAccessId(v) ==> f.type_access_id == v && f.name == g.name)
            &&& (m matches Msg::UpdateActualStatusId(v) ==> decimal_usize(v@) matches Some(x) ==> f.actual_status_id == x)
        },
{
}

/// Creation law: asking to create either asks for the registration (the
/// name is given) or puts the focus on the missing name, never both, and
/// the button stays enabled only in the second case.
pub proof fn lemma_create_needs_name(s: CreateComponent, t: CreateComponent, acts: Seq<Action>)
    requires
        marks_only_missing(s),
        next(s, Msg::RequestManager, t, acts),
    ensures
        s.request_component.name@.len() > 0 ==> acts == seq![Action::Send(Msg::RequestCreateComponentData)]
            && t.disable_create_btn && !t.name_empty,
        s.request_component.name@.len() == 0 ==> acts == seq![Action::Send(Msg::Focuser)]
            && !t.disable_create_btn && t.name_empty,
{
    assert(seq![Action::Send(Msg::RequestCreateComponentData)] =~= none() + seq![Action::Send(Msg::RequestCreateComponentData)]);
    assert(seq![Action::Send(Msg::Focuser)] =~= seq![Action::Send(Msg::Focuser)] + none());
}

impl CreateComponent {
    /// The page as first created, for the company `company_uuid` if any.
    pub fn new(company_uuid: Option<String>) -> (s: Self)
        ensures
            s.company_uuid == company_uuid,
            s.error.is_none(),
            initial_form(s.request_component),
            s.actual_statuses@.len() == 0,
            s.types_access@.len() == 0,
            !s.disable_create_btn,
            !s.name_empty,
            marks_only_missing(s),
    {
        CreateComponent {
            company_uuid,
            error: None,
            request_component: ComponentCreateData::new(),
            actual_statuses: Vec::new(),
            types_access: Vec::new(),
            disable_create_btn: false,
            name_empty: false,
        }
    }

    /// Handles the showing of the page; see `rendered`.
    pub fn on_render(&self, first_render: bool, logged_in: bool) -> (acts: Vec<Action>)
        ensures
            rendered(first_render, logged_in, acts@),
    {
        let mut acts: Vec<Action> = Vec::new();
        if !logged_in {
            acts.push(Action::Query(CreateComponentRequest::SetHistoryBack));
            acts.push(Action::Route(AppRoute::Login));
        }
        if first_render {
            acts.push(Action::Query(CreateComponentRequest::LoadLists));
        }
        proof {
            let login = if logged_in {
                none()
            } else {
                seq![Action::Query(CreateComponentRequest::SetHistoryBack), Action::Route(AppRoute::Login)]
            };
            assert(acts@ =~= (if first_render { login.push(Action::Query(CreateComponentRequest::LoadLists)) } else { login }));
        }
        acts
    }

    /// Handles one message; see `next`. The page is drawn again after each.
    #[verifier::rlimit(60)]
    #[verifier::spinoff_prover]
    pub fn update(&mut self, msg: Msg) -> (acts: Vec<Action>)
        ensures
            next(*old(self), msg, *final(self), acts@),
    {
        let mut acts: Vec<Action> = Vec::new();
        match msg {
            Msg::RequestManager => {
                self.disable_create_btn = true;
                if self.request_component.name.as_str().unicode_len() == 0 {
                    self.name_empty = true;
                    self.disable_create_btn = false;
                }
                if self.name_empty {
                    acts.push(Action::Send(Msg::Focuser));
                }
                if self.disable_create_btn {
                    acts.push(Action::Send(Msg::RequestCreateComponentData));
                }
                proof {
                    let missing = old(self).request_component.name@.len() == 0;
                    let marked = missing || old(self).name_empty;
                    assert(acts@ =~= (if marked { seq![Action::Send(Msg::Focuser)] } else { none() })
                        + (if !missing { seq![Action::Send(Msg::RequestCreateComponentData)] } else { none() }));
                }
            },
            Msg::RequestCreateComponentData => {
                acts.push(Action::Query(CreateComponentRequest::Register(self.request_component.duplicate())));
            },
            Msg::RequestChangeOwnerSupplier(component_uuid, company_uuid) => {
                acts.push(Action::Query(CreateComponentRequest::SetOwnerSupplier {
                    component_uuid,
                    company_uuid,
                    description: String::new(),
                }));
            },
            Msg::ResponseError(e) => {
                self.error = Some(e);
            },
            Msg::GetListOpt(res) => match res {
                Ok(lists) => {
                    self.actual_statuses = lists.actual_statuses;
                    self.types_access = lists.types_access;
                },
                Err(e) => {
                    acts.push(Action::Send(Msg::ResponseError(e)));
                },
            },
            Msg::GetCreateComponentResult(res) => match res {
                Ok(uuid) => {
                    if uuid.as_str().unicode_len() > 0 {
                        match &self.company_uuid {
                            Some(c) => {
                                acts.push(Action::Send(Msg::RequestChangeOwnerSupplier(uuid, c.clone())));
                            },
                            None => {
                                acts.push(Action::Route(AppRoute::ComponentSettings(uuid)));
                            },
                        }
                    }
                },
                Err(e) => {
                    acts.push(Action::Send(Msg::ResponseError(e)));
                },
            },
            Msg::GetUpdateSetSupplierResult(res, uuid) => match res {
                Ok(_) => {
                    acts.push(Action::Route(AppRoute::ComponentSettings(uuid)));
                },
                Err(e) => {
                    acts.push(Action::Send(Msg::ResponseError(e)));
                },
            },
            Msg::UpdateName(v) => {
                self.request_component.name = v;
                self.name_empty = false;
            },
            Msg::UpdateDescription(v) => {
                self.request_component.description = v;
            },
            Msg::UpdateTypeAccessId(v) => {
                self.request_component.type_access_id = v;
            },
            Msg::UpdateActualStatusId(v) => {
                self.request_component.actual_status_id = usize_or_zero(v.as_str());
            },
            Msg::ClearError => {
                self.error = None;
            },
            Msg::Focuser => {
                acts.push(Action::Query(CreateComponentRequest::Focus("update-component-name".to_owned())));
            },
            Msg::Ignore => {},
        }
        acts
    }
}

} // verus!
