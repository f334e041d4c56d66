//! The settings page of a component: editing its data and access, its
//! modifications and files, and deleting it after its uuid has been typed
//! again.

use vstd::prelude::*;
use crate::common::{
    FileInfo, UploadTicket, NamedId, CompanyShort, copy_files, can_upload, upload_allowed,
    i64_or_zero, usize_or_zero, decimal_i64, decimal_usize,
};
use crate::route::{AppRoute, route_target, strip_leading};

verus! {

/// A modification of a component, as the modifications table lists it.
pub struct ModificationInfo {
    pub uuid: String,
    pub modification_name: String,
}

/// A component as the settings page reads it.
pub struct ComponentInfo {
    pub uuid: String,
    pub is_base: bool,
    pub parent_component_uuid: String,
    pub name: String,
    pub description: String,
    pub component_type_id: usize,
    pub actual_status_id: usize,
    pub component_modifications: Vec<ModificationInfo>,
    pub files: Vec<FileInfo>,
}

/// The edited data of a component, sent when the changes are saved.
pub struct ComponentUpdatePreData {
    pub parent_component_uuid: String,
    pub name: String,
    pub description: String,
    pub component_type_id: usize,
    pub actual_status_id: usize,
}

/// The empty form.
pub open spec fn empty_form(f: ComponentUpdatePreData) -> bool {
    &&& f.parent_component_uuid@.len() == 0
    &&& f.name@.len() == 0
    &&& f.description@.len() == 0
    &&& f.component_type_id == 0
    &&& f.actual_status_id == 0
}

/// The form filled with the data of a component.
pub open spec fn form_of(d: ComponentInfo) -> ComponentUpdatePreData {
    ComponentUpdatePreData {
        parent_component_uuid: d.parent_component_uuid,
        name: d.name,
        description: d.description,
        component_type_id: d.component_type_id,
        actual_status_id: d.actual_status_id,
    }
}

impl ComponentUpdatePreData {
    /// The empty form.
    pub fn empty() -> (f: Self)
        ensures
            empty_form(f),
    {
        ComponentUpdatePreData {
            parent_component_uuid: String::new(),
            name: String::new(),
            description: String::new(),
            component_type_id: 0,
            actual_status_id: 0,
        }
    }

    /// The form filled with the data of a component.
    pub fn from_info(d: &ComponentInfo) -> (f: Self)
        ensures
            f == form_of(*d),
    {
        ComponentUpdatePreData {
            parent_component_uuid: d.parent_component_uuid.clone(),
            name: d.name.clone(),
            description: d.description.clone(),
            component_type_id: d.component_type_id,
            actual_status_id: d.actual_status_id,
        }
    }

    /// A copy of the form.
    pub fn duplicate(&self) -> (f: Self)
        ensures
            f == *self,
    {
        ComponentUpdatePreData {
            parent_component_uuid: self.parent_component_uuid.clone(),
            name: self.name.clone(),
            description: self.description.clone(),
            component_type_id: self.component_type_id,
            actual_status_id: self.actual_status_id,
        }
    }
}

/// A copy of a modification list.
pub fn copy_modifications(v: &Vec<ModificationInfo>) -> (r: Vec<ModificationInfo>)
    ensures
        r@ == v@,
{
    let mut r: Vec<ModificationInfo> = Vec::new();
    let n = v.len();
    let mut i: usize = 0;
    while i < n
        invariant
            n == v@.len(),
            i <= n,
            r@ == v@.subrange(0, i as int),
        decreases n - i,
    {
        r.push(ModificationInfo { uuid: v[i].uuid.clone(), modification_name: v[i].modification_name.clone() });
        assert(v@.subrange(0, i + 1) == v@.subrange(0, i as int).push(v@[i as int]));
        i = i + 1;
    }
    assert(v@.subrange(0, n as int) == v@);
    r
}

/// The option lists of the page.
pub struct ComponentListOptions {
    pub companies: Vec<CompanyShort>,
    pub actual_statuses: Vec<NamedId>,
    pub types_access: Vec<NamedId>,
}

/// A request to the server.
pub enum ComponentRequest {
    /// The component and the option lists, for the signed-in user.
    Load { component_uuid: String, user_uuid: String },
    FilesList { component_uuid: String },
    Update { component_uuid: String, data: ComponentUpdatePreData },
    ChangeAccess { component_uuid: String, new_type_access_id: i64 },
    Delete { component_uuid: String },
    UploadFiles { component_uuid: String, filenames: Vec<String> },
}

/// What the page reacts to; replies arrive decoded, `Err` holding the
/// message of a failed reply.
pub enum Msg {
    OpenComponent,
    RequestManager,
    RequestComponentFilesList,
    RequestUpdateComponentData,
    RequestChangeAccess,
    RequestDeleteComponent,
    RequestUploadComponentFiles(Vec<String>),
    GetComponentData(Result<ComponentInfo, String>),
    GetListOpt(Result<ComponentListOptions, String>),
    GetUpdateComponentResult(Result<usize, String>),
    GetUpdateAccessResult(Result<bool, String>),
    GetComponentFilesListResult(Result<Vec<FileInfo>, String>),
    GetUploadData(Result<Vec<UploadTicket>, String>),
    UploadConfirm(usize),
    FinishUploadFiles,
    GetDeleteComponentResult(Result<String, String>),
    UpdateTypeAccessId(String),
    UpdateActualStatusId(String),
    UpdateName(String),
    UpdateDescription(String),
    UpdateConfirmDelete(String),
    ResponseError(String),
    RegisterNewModification(String),
    DeleteModification(String),
    ChangeHideDeleteComponent,
    ClearError,
    Ignore,
}

/// What a transition asks for.
pub enum Action {
    Query(ComponentRequest),
    Route(AppRoute),
    Send(Msg),
}

/// The state of the page.
pub struct ComponentSettings {
    /// The uuid that the page was opened with.
    pub component_uuid: String,
    pub error: Option<String>,
    pub current_component: Option<ComponentInfo>,
    pub current_component_uuid: String,
    pub current_component_is_base: bool,
    pub current_modifications: Vec<ModificationInfo>,
    pub request_component: ComponentUpdatePreData,
    pub request_upload_data: Vec<UploadTicket>,
    pub request_access: i64,
    pub supplier_list: Vec<CompanyShort>,
    pub actual_statuses: Vec<NamedId>,
    pub types_access: Vec<NamedId>,
    pub update_component: bool,
    pub update_component_access: bool,
    pub update_component_supplier: bool,
    pub files_list: Vec<FileInfo>,
    pub disable_delete_component_btn: bool,
    pub confirm_delete_component: String,
    pub hide_delete_modal: bool,
    pub disable_save_changes_btn: bool,
    pub select_component_modification: String,
    pub get_result_component_data: usize,
    pub get_result_access: bool,
}

/// The prefix of the page's route.
pub open spec fn page_prefix() -> Seq<char> {
    "#/component/settings/"@
}

/// A field of the component was edited.
pub open spec fn edited(s: ComponentSettings, req: ComponentUpdatePreData) -> ComponentSettings {
    ComponentSettings { request_component: req, update_component: true, disable_save_changes_btn: false, ..s }
}

/// No action.
pub open spec fn none() -> Seq<Action> {
    Seq::<Action>::empty()
}

/// The transition of the page: from `s`, message `m` leads to `t` and asks
/// for `acts`.
pub open spec fn next(s: ComponentSettings, m: Msg, t: ComponentSettings, acts: Seq<Action>) -> bool {
    let req = s.request_component;
    match m {
        Msg::OpenComponent => t == s && acts == seq![Action::Route(AppRoute::ShowComponent(s.current_component_uuid))],
        Msg::RequestManager => t == (ComponentSettings {
                update_component: false,
                update_component_access: false,
                update_component_supplier: false,
                disable_save_changes_btn: true,
                get_result_component_data: 0,
                get_result_access: false,
                ..s
            })
            && acts == (if s.update_component { seq![Action::Send(Msg::RequestUpdateComponentData)] } else { none() })
                + (if s.update_component_access { seq![Action::Send(Msg::RequestChangeAccess)] } else { none() }),
        Msg::RequestComponentFilesList => t == s
            && acts == seq![Action::Query(ComponentRequest::FilesList { component_uuid: s.component_uuid })],
        Msg::RequestUpdateComponentData => t == s
            && acts == seq![Action::Query(ComponentRequest::Update { component_uuid: s.current_component_uuid, data: req })],
        Msg::RequestChangeAccess => t == s
            && acts == seq![Action::Query(ComponentRequest::ChangeAccess {
                component_uuid: s.current_component_uuid,
                new_type_access_id: s.request_access,
            })],
        Msg::RequestDeleteComponent => t == s
            && acts == seq![Action::Query(ComponentRequest::Delete { component_uuid: s.current_component_uuid })],
        Msg::RequestUploadComponentFiles(filenames) => t == s
            && acts == (if upload_allowed(s.current_component_uuid@, filenames@.len()) {
                seq![Action::Query(ComponentRequest::UploadFiles { component_uuid: s.current_component_uuid, filenames })]
            } else {
                none()
            }),
        Msg::GetComponentFilesListResult(Ok(files)) => t == (ComponentSettings { files_list: files, ..s }) && acts == none(),
        Msg::GetUploadData(Ok(tickets)) => t == (ComponentSettings { request_upload_data: tickets, ..s }) && acts == none(),
        Msg::GetComponentData(Ok(data)) => t.files_list@ == data.files@
            && t.current_modifications@ == data.component_modifications@
            && t == (ComponentSettings {
                current_component_uuid: data.uuid,
                current_component_is_base: data.is_base,
                current_modifications: t.current_modifications,
                files_list: t.files_list,
                current_component: Some(data),
                request_component: form_of(data),
                ..s
            })
            && acts == none(),
        Msg::GetListOpt(Ok(lists)) => t == (ComponentSettings {
                supplier_list: lists.companies,
                actual_statuses: lists.actual_statuses,
                types_access: lists.types_access,
                ..s
            })
            && acts == none(),
        Msg::GetUpdateComponentResult(Ok(rows)) => t == (ComponentSettings { get_result_component_data: rows, ..s })
            && acts == none(),
        Msg::GetUpdateAccessResult(Ok(done)) => t == (ComponentSettings {
                update_component_access: false,
                get_result_access: done,
                ..s
            })
            && acts == none(),
        Msg::GetUpdateAccessResult(Err(e)) => t == (ComponentSettings { update_component_access: false, ..s })
            && acts == seq![Action::Send(Msg::ResponseError(e))],
        Msg::GetDeleteComponentResult(Ok(deleted)) => t == s
            && acts == (if s.current_component_uuid@ == deleted@ { seq![Action::Route(AppRoute::Home)] } else { none() }),
        Msg::GetComponentFilesListResult(Err(e)) | Msg::GetUploadData(Err(e)) | Msg::GetComponentData(Err(e))
        | Msg::GetListOpt(Err(e)) | Msg::GetUpdateComponentResult(Err(e))
        | Msg::GetDeleteComponentResult(Err(e)) => t == s && acts == seq![Action::Send(Msg::ResponseError(e))],
        Msg::UploadConfirm(_) => t == s && acts == seq![Action::Send(Msg::FinishUploadFiles)],
        Msg::FinishUploadFiles => t.request_upload_data@.len() == 0 && t.files_list@.len() == 0
            && t == (ComponentSettings { request_upload_data: t.request_upload_data, files_list: t.files_list, ..s })
            && acts == seq![Action::Send(Msg::RequestComponentFilesList)],
        Msg::UpdateTypeAccessId(data) => t == (ComponentSettings {
                request_access: match decimal_i64(data@) { Some(v) => v, None => 0 },
                update_component_access: true,
                disable_save_changes_btn: false,
                ..s
            })
            && acts == none(),
        Msg::UpdateActualStatusId(data) => t == edited(s, ComponentUpdatePreData {
                actual_status_id: match decimal_usize(data@) { Some(v) => v, None => 0 },
                ..req
            })
            && acts == none(),
        Msg::UpdateName(data) => t == edited(s, ComponentUpdatePreData { name: data, ..req }) && acts == none(),
        Msg::UpdateDescription(data) => t == edited(s, ComponentUpdatePreData { description: data, ..req }) && acts == none(),
        Msg::UpdateConfirmDelete(data) => t == (ComponentSettings {
                disable_delete_component_btn: s.current_component_uuid@ != data@,
                confirm_delete_component: data,
                ..s
            })
            && acts == none(),
        Msg::ResponseError(e) => t == (ComponentSettings { error: Some(e), ..s }) && acts == none(),
        Msg::RegisterNewModification(uuid) => t == (ComponentSettings { select_component_modification: uuid, ..s })
            && acts == none(),
        Msg::DeleteModification(_) => t.select_component_modification@.len() == 0
            && t == (ComponentSettings { select_component_modification: t.select_component_modification, ..s })
            && acts == none(),
        Msg::ChangeHideDeleteComponent => t == (ComponentSettings { hide_delete_modal: !s.hide_delete_modal, ..s })
            && acts == none(),
        Msg::ClearError => t == (ComponentSettings { error: None, ..s }) && acts == none(),
        Msg::Ignore => t == s && acts == none(),
    }
}

/// What showing the page does: send to the login page a visitor who is not
/// signed in, and load the component named by the route fragment when the
/// page first shows or the fragment names another component (whose old
/// data is then dropped).
pub open spec fn rendered(
    s: ComponentSettings,
    first_render: bool,
    logged_user: Option<String>,
    fragment: Seq<char>,
    t: ComponentSettings,
    acts: Seq<Action>,
) -> bool {
    let target = strip_leading(fragment, page_prefix());
    let changed = target != s.current_component_uuid@;
    let login = if logged_user.is_none() { seq![Action::Route(AppRoute::Login)] } else { none() };
    let user_uuid: Seq<char> = match logged_user { Some(u) => u@, None => Seq::empty() };
    if first_render || changed {
        t.current_component_uuid@ == target
            && (if changed {
                &&& t.current_component.is_none()
                &&& !t.current_component_is_base
                &&& t.current_modifications@.len() == 0
                &&& empty_form(t.request_component)
                &&& t.select_component_modification@.len() == 0
            } else {
                &&& t.current_component == s.current_component
                &&& t.current_component_is_base == s.current_component_is_base
                &&& t.current_modifications == s.current_modifications
                &&& t.request_component == s.request_component
                &&& t.select_component_modification == s.select_component_modification
            })
            && t == (ComponentSettings {
                current_component_uuid: t.current_component_uuid,
                current_component: t.current_component,
                current_component_is_base: t.current_component_is_base,
                current_modifications: t.current_modifications,
                request_component: t.request_component,
                select_component_modification: t.select_component_modification,
                ..s
            })
            && acts.len() == login.len() + 1
            && acts.subrange(0, login.len() as int) == login
            && (acts.last() matches Action::Query(ComponentRequest::Load { component_uuid, user_uuid: u })
                && component_uuid@ == target && u@ == user_uuid)
    } else {
        t == s && acts == login
    }
}

/// Pending edits keep the save button enabled.
pub open spec fn save_enabled_when_pending(s: ComponentSettings) -> bool {
    (s.update_component || s.update_component_access) ==> !s.disable_save_changes_btn
}

/// Save law: whatever the page handles, while some edit waits to be saved
/// the save button stays enabled.
pub proof fn lemma_pending_edits_keep_save_enabled(s: ComponentSettings, m: Msg, t: ComponentSettings, acts: Seq<Action>)
    requires
        save_enabled_when_pending(s),
        next(s, m, t, acts),
    ensures
        save_enabled_when_pending(t),
{
}

/// Save law: saving sends one update of the component's data when that
/// data was edited, one change of access when the access was changed, and
/// nothing else; afterwards nothing is pending and the button is disabled.
pub proof fn lemma_save_sends_pending(s: ComponentSettings, t: ComponentSettings, acts: Seq<Action>)
    requires
        next(s, Msg::RequestManager, t, acts),
    ensures
        acts.len() == (if s.update_component { 1int } else { 0 }) + (if s.update_component_access { 1int } else { 0 }),
        s.update_component ==> acts[0] == Action::Send(Msg::RequestUpdateComponentData),
        s.update_component_access ==> acts.last() == Action::Send(Msg::RequestChangeAccess),
        !t.update_component && !t.update_component_access && t.disable_save_changes_btn,
{
}

/// Request law: deleting, saving and changing access each ask for exactly
/// one request, about the component that is loaded: its deletion, its
/// update with the form as edited, its change to the chosen access.
pub proof fn lemma_requests_target_loaded_component(s: ComponentSettings, m: Msg, t: ComponentSettings, acts: Seq<Action>)
    requires
        next(s, m, t, acts),
    ensures
        m is RequestDeleteComponent ==> acts
            == seq![Action::Query(ComponentRequest::Delete { component_uuid: s.current_component_uuid })],
        m is RequestUpdateComponentData ==> acts == seq![
            Action::Query(ComponentRequest::Update { component_uuid: s.current_component_uuid, data: s.request_component }),
        ],
        m is RequestChangeAccess ==> acts == seq![
            Action::Query(ComponentRequest::ChangeAccess {
                component_uuid: s.current_component_uuid,
                new_type_access_id: s.request_access,
            }),
        ],
{
}

/// Request law: of all messages, only the delete message asks to delete the
/// component, only the save message asks to update it, and only the access
/// message asks to change its access.
pub proof fn lemma_requests_come_from_their_messages(s: ComponentSettings, m: Msg, t: ComponentSettings, acts: Seq<Action>, i: int)
    requires
        next(s, m, t, acts),
        0 <= i < acts.len(),
    ensures
        acts[i] matches Action::Query(ComponentRequest::Delete { .. }) ==> m is RequestDeleteComponent,
        acts[i] matches Action::Query(ComponentRequest::Update { .. }) ==> m is RequestUpdateComponentData,
        acts[i] matches Action::Query(ComponentRequest::ChangeAccess { .. }) ==> m is RequestChangeAccess,
{
}

impl ComponentSettings {
    /// Takes the uuid given to the page; the page is drawn again only when
    /// it changed.
    pub fn change(&mut self, component_uuid: String) -> (redraw: bool)
        ensures
            redraw == (component_uuid@ != old(self).component_uuid@),
            redraw ==> *final(self) == (ComponentSettings { component_uuid, ..*old(self) }),
            !redraw ==> *final(self) == *old(self),
    {
        if crate::route::same_text(self.component_uuid.as_str(), component_uuid.as_str()) {
            false
        } else {
            self.component_uuid = component_uuid;
            true
        }
    }

    /// The page as first created for the component `component_uuid`.
    pub fn new(component_uuid: String) -> (s: Self)
        ensures
            s.component_uuid == component_uuid,
            s.error.is_none(),
            s.current_component.is_none(),
            s.current_component_uuid@.len() == 0,
            !s.current_component_is_base,
            s.current_modifications@.len() == 0,
            empty_form(s.request_component),
            s.request_upload_data@.len() == 0,
            s.request_access == 0,
            s.supplier_list@.len() == 0,
            s.actual_statuses@.len() == 0,
            s.types_access@.len() == 0,
            !s.update_component,
            !s.update_component_access,
            !s.update_component_supplier,
            s.files_list@.len() == 0,
            s.disable_delete_component_btn,
            s.confirm_delete_component@.len() == 0,
            s.hide_delete_modal,
            s.disable_save_changes_btn,
            s.select_component_modification@.len() == 0,
            s.get_result_component_data == 0,
            !s.get_result_access,
    {
        ComponentSettings {
            component_uuid,
            error: None,
            current_component: None,
            current_component_uuid: String::new(),
            current_component_is_base: false,
            current_modifications: Vec::new(),
            request_component: ComponentUpdatePreData::empty(),
            request_upload_data: Vec::new(),
            request_access: 0,
            supplier_list: Vec::new(),
            actual_statuses: Vec::new(),
            types_access: Vec::new(),
            update_component: false,
            update_component_access: false,
            update_component_supplier: false,
            files_list: Vec::new(),
            disable_delete_component_btn: true,
            confirm_delete_component: String::new(),
            hide_delete_modal: true,
            disable_save_changes_btn: true,
            select_component_modification: String::new(),
            get_result_component_data: 0,
            get_result_access: false,
        }
    }

    /// Handles the showing of the page; see `rendered`.
    pub fn on_render(&mut self, first_render: bool, logged_user: Option<String>, fragment: &str) -> (acts: Vec<Action>)
        ensures
            rendered(*old(self), first_render, logged_user, fragment@, *final(self), acts@),
    {
        let mut acts: Vec<Action> = Vec::new();
        let ghost login = if logged_user.is_none() { seq![Action::Route(AppRoute::Login)] } else { none() };
        let user_uuid = match logged_user {
            Some(u) => u,
            None => {
                acts.push(Action::Route(AppRoute::Login));
                String::new()
            },
        };
        assert(acts@ == login);
        let target = route_target(fragment, "#/component/settings/");
        let changed = !(target == self.current_component_uuid);
        if changed {
            self.current_component = None;
            self.current_component_uuid = String::new();
            self.current_component_is_base = false;
            self.current_modifications.clear();
            self.request_component = ComponentUpdatePreData::empty();
            self.select_component_modification = String::new();
        }
        if first_render || changed {
            self.current_component_uuid = target.clone();
            acts.push(Action::Query(ComponentRequest::Load { component_uuid: target, user_uuid }));
            assert(acts@.subrange(0, login.len() as int) == login);
        }
        acts
    }

    /// Handles one message; see `next`. The flag is whether the page is
    /// drawn again: not after a refused upload.
    #[verifier::rlimit(60)]
    #[verifier::spinoff_prover]
    pub fn update(&mut self, msg: Msg) -> (r: (bool, Vec<Action>))
        ensures
            next(*old(self), msg, *final(self), r.1@),
            r.0 == !(msg matches Msg::RequestUploadComponentFiles(names)
                && !upload_allowed(old(self).current_component_uuid@, names@.len())),
    {
        let mut acts: Vec<Action> = Vec::new();
        match msg {
            Msg::OpenComponent => {
                acts.push(Action::Route(AppRoute::ShowComponent(self.current_component_uuid.clone())));
            },
            Msg::RequestManager => {
                if self.update_component {
                    acts.push(Action::Send(Msg::RequestUpdateComponentData));
                }
                if self.update_component_access {
                    acts.push(Action::Send(Msg::RequestChangeAccess));
                }
                assert(acts@ =~= (if self.update_component { seq![Action::Send(Msg::RequestUpdateComponentData)] } else { none() })
                    + (if self.update_component_access { seq![Action::Send(Msg::RequestChangeAccess)] } else { none() }));
                self.update_component = false;
                self.update_component_access = false;
                self.update_component_supplier = false;
                self.disable_save_changes_btn = true;
                self.get_result_component_data = 0;
                self.get_result_access = false;
            },
            Msg::RequestComponentFilesList => {
                acts.push(Action::Query(ComponentRequest::FilesList { component_uuid: self.component_uuid.clone() }));
            },
            Msg::RequestUpdateComponentData => {
                acts.push(Action::Query(ComponentRequest::Update {
                    component_uuid: self.current_component_uuid.clone(),
                    data: self.request_component.duplicate(),
                }));
            },
            Msg::RequestChangeAccess => {
                acts.push(Action::Query(ComponentRequest::ChangeAccess {
                    component_uuid: self.current_component_uuid.clone(),
                    new_type_access_id: self.request_access,
                }));
            },
            Msg::RequestDeleteComponent => {
                acts.push(Action::Query(ComponentRequest::Delete { component_uuid: self.current_component_uuid.clone() }));
            },
            Msg::RequestUploadComponentFiles(filenames) => {
                if !can_upload(&self.current_component_uuid, &filenames) {
                    return (false, acts);
                }
                acts.push(Action::Query(ComponentRequest::UploadFiles {
                    component_uuid: self.current_component_uuid.clone(),
                    filenames,
                }));
            },
            Msg::GetComponentFilesListResult(res) => match res {
                Ok(files) => {
                    self.files_list = files;
                },
                Err(e) => {
                    acts.push(Action::Send(Msg::ResponseError(e)));
                },
            },
            Msg::GetUploadData(res) => match res {
                Ok(tickets) => {
                    self.request_upload_data = tickets;
                },
                Err(e) => {
                    acts.push(Action::Send(Msg::ResponseError(e)));
                },
            },
            Msg::GetComponentData(res) => match res {
                Ok(data) => {
                    self.current_component_uuid = data.uuid.clone();
                    self.current_component_is_base = data.is_base;
                    self.current_modifications = copy_modifications(&data.component_modifications);
                    self.files_list = copy_files(&data.files);
                    self.request_component = ComponentUpdatePreData::from_info(&data);
                    self.current_component = Some(data);
                },
                Err(e) => {
                    acts.push(Action::Send(Msg::ResponseError(e)));
                },
            },
            Msg::GetListOpt(res) => match res {
                Ok(lists) => {
                    self.supplier_list = lists.companies;
                    self.actual_statuses = lists.actual_statuses;
                    self.types_access = lists.types_access;
                },
                Err(e) => {
                    acts.push(Action::Send(Msg::ResponseError(e)));
                },
            },
            Msg::GetUpdateComponentResult(res) => match res {
                Ok(rows) => {
                    self.get_result_component_data = rows;
                },
                Err(e) => {
                    acts.push(Action::Send(Msg::ResponseError(e)));
                },
            },
            Msg::GetUpdateAccessResult(res) => {
                self.update_component_access = false;
                match res {
                    Ok(done) => {
                        self.get_result_access = done;
                    },
                    Err(e) => {
                        acts.push(Action::Send(Msg::ResponseError(e)));
                    },
                }
            },
            Msg::UploadConfirm(_) => {
                acts.push(Action::Send(Msg::FinishUploadFiles));
            },
            Msg::FinishUploadFiles => {
                self.request_upload_data.clear();
                self.files_list.clear();
                acts.push(Action::Send(Msg::RequestComponentFilesList));
            },
            Msg::GetDeleteComponentResult(res) => match res {
                Ok(deleted) => {
                    if self.current_component_uuid == deleted {
                        acts.push(Action::Route(AppRoute::Home));
                    }
                },
                Err(e) => {
                    acts.push(Action::Send(Msg::ResponseError(e)));
                },
            },
            Msg::UpdateTypeAccessId(data) => {
                self.request_access = i64_or_zero(data.as_str());
                self.update_component_access = true;
                self.disable_save_changes_btn = false;
            },
            Msg::UpdateActualStatusId(data) => {
                self.request_component.actual_status_id = usize_or_zero(data.as_str());
                self.update_component = true;
                self.disable_save_changes_btn = false;
            },
            Msg::UpdateName(data) => {
                self.request_component.name = data;
                self.update_component = true;
                self.disable_save_changes_btn = false;
            },
            Msg::UpdateDescription(data) => {
                self.request_component.description = data;
                self.update_component = true;
                self.disable_save_changes_btn = false;
            },
            Msg::UpdateConfirmDelete(data) => {
                self.disable_delete_component_btn = !(self.current_component_uuid == data);
                self.confirm_delete_component = data;
            },
            Msg::ResponseError(e) => {
                self.error = Some(e);
            },
            Msg::RegisterNewModification(uuid) => {
                self.select_component_modification = uuid;
            },
            Msg::DeleteModification(_) => {
                self.select_component_modification = String::new();
            },
            Msg::ChangeHideDeleteComponent => {
                self.hide_delete_modal = !self.hide_delete_modal;
            },
            Msg::ClearError => {
                self.error = None;
            },
            Msg::Ignore => {},
        }
        (true, acts)
    }
}

} // verus!
