//! The settings page of an ordered service: its name and description, and
//! its files.

use vstd::prelude::*;
use crate::common::{FileInfo, UploadTicket, NamedId, CompanyShort, copy_files, can_upload, upload_allowed};
use crate::route::{AppRoute, route_target, strip_leading};

verus! {

/// A service as the settings page reads it.
pub struct ServiceInfo {
    pub uuid: String,
    pub name: String,
    pub description: String,
    pub region_id: usize,
    pub files: Vec<FileInfo>,
}

/// The edited data of a service, sent when it is saved.
pub struct ServiceUpdatePreData {
    pub name: String,
    pub description: String,
    pub region_id: usize,
}

/// The empty form.
pub open spec fn empty_form(f: ServiceUpdatePreData) -> bool {
    f.name@.len() == 0 && f.description@.len() == 0 && f.region_id == 0
}

/// The form filled with a service's data.
pub open spec fn form_of(d: ServiceInfo) -> ServiceUpdatePreData {
    ServiceUpdatePreData { name: d.name, description: d.description, region_id: d.region_id }
}

impl ServiceUpdatePreData {
    /// The empty form.
    pub fn empty() -> (f: Self)
        ensures
            empty_form(f),
    {
        ServiceUpdatePreData { name: String::new(), description: String::new(), region_id: 0 }
    }

    /// The form filled with a service's data.
    pub fn from_info(d: &ServiceInfo) -> (f: Self)
        ensures
            f == form_of(*d),
    {
        ServiceUpdatePreData { name: d.name.clone(), description: d.description.clone(), region_id: d.region_id }
    }
}

/// The option lists of the page.
pub struct ServiceListOptions {
    pub companies: Vec<CompanyShort>,
    pub regions: Vec<NamedId>,
}

/// A request to the server or to the browser.
pub enum ServiceRequest {
    /// The service and the option lists, for the signed-in user.
    Load { service_uuid: String, user_uuid: String },
    FilesList { service_uuid: String },
    Update { service_uuid: String, data: ServiceUpdatePreData },
    /// Files to attach, with an empty commit message.
    UploadFiles { service_uuid: String, filenames: Vec<String>, commit_msg: String },
    /// Remember that the login page should lead back here.
    SetHistoryBack,
}

/// What the page reacts to; replies arrive decoded, `Err` holding the
/// message of a failed reply.
pub enum Msg {
    OpenService,
    RequestManager,
    RequestServiceFilesList,
    RequestUpdateServiceData,
    RequestUploadServiceFiles(Vec<String>),
    GetServiceFilesList(Result<Vec<FileInfo>, String>),
    GetServiceData(Result<ServiceInfo, String>),
    GetListOpt(Result<ServiceListOptions, String>),
    GetUpdateServiceResult(Result<usize, String>),
    GetUploadData(Result<Vec<UploadTicket>, String>),
    UploadConfirm(usize),
    FinishUploadFiles,
    UpdateName(String),
    UpdateDescription(String),
    ResponseError(String),
    ClearError,
    Ignore,
}

/// What a transition asks for.
pub enum Action {
    Query(ServiceRequest),
    Route(AppRoute),
    Send(Msg),
}

/// The state of the page.
pub struct ServiceSettings {
    /// The uuid that the page was opened with.
    pub service_uuid: String,
    pub error: Option<String>,
    pub current_service: Option<ServiceInfo>,
    pub current_service_uuid: String,
    pub request_service: ServiceUpdatePreData,
    pub request_upload_data: Vec<UploadTicket>,
    pub supplier_list: Vec<CompanyShort>,
    pub regions: Vec<NamedId>,
    pub update_service: bool,
    pub files_list: Vec<FileInfo>,
    pub disable_save_changes_btn: bool,
    pub get_result_service_data: usize,
}

/// No action.
pub open spec fn none() -> Seq<Action> {
    Seq::<Action>::empty()
}

/// The prefix of the page's route.
pub open spec fn page_prefix() -> Seq<char> {
    "#/service/settings/"@
}

/// The transition of the page: from `s`, message `m` leads to `t` and asks
/// for `acts`.
pub open spec fn next(s: ServiceSettings, m: Msg, t: ServiceSettings, acts: Seq<Action>) -> bool {
    let req = s.request_service;
    match m {
        Msg::OpenService => t == s && acts == seq![Action::Route(AppRoute::ShowService(s.current_service_uuid))],
        Msg::RequestManager => t == (ServiceSettings {
                update_service: false,
                disable_save_changes_btn: true,
                get_result_service_data: 0,
                ..s
            })
            && acts == (if s.update_service { seq![Action::Send(Msg::RequestUpdateServiceData)] } else { none() }),
        Msg::RequestServiceFilesList => t == s
            && acts == seq![Action::Query(ServiceRequest::FilesList { service_uuid: s.service_uuid })],
        Msg::RequestUpdateServiceData => t == s
            && acts == seq![Action::Query(ServiceRequest::Update { service_uuid: s.current_service_uuid, data: req })],
        Msg::RequestUploadServiceFiles(filenames) => t == s
            && (if upload_allowed(s.current_service_uuid@, filenames@.len()) {
                acts.len() == 1 && (acts[0] matches Action::Query(ServiceRequest::UploadFiles { service_uuid, filenames: f, commit_msg })
                    && service_uuid == s.current_service_uuid && f == filenames && commit_msg@.len() == 0)
            } else {
                acts == none()
            }),
        Msg::GetServiceFilesList(Ok(files)) => t == (ServiceSettings { files_list: files, ..s }) && acts == none(),
        Msg::GetUploadData(Ok(tickets)) => t == (ServiceSettings { request_upload_data: tickets, ..s }) && acts == none(),
        Msg::GetServiceData(Ok(data)) => t.files_list@ == data.files@
            && t == (ServiceSettings {
                current_service_uuid: data.uuid,
                files_list: t.files_list,
                current_service: Some(data),
                request_service: form_of(data),
                ..s
            })
            && acts == none(),
        Msg::GetListOpt(Ok(lists)) => t == (ServiceSettings { supplier_list: lists.companies, regions: lists.regions, ..s })
            && acts == none(),
        Msg::GetUpdateServiceResult(Ok(rows)) => t == (ServiceSettings { get_result_service_data: rows, ..s }) && acts == none(),
        Msg::GetServiceFilesList(Err(e)) | Msg::GetServiceData(Err(e)) | Msg::GetListOpt(Err(e))
        | Msg::GetUpdateServiceResult(Err(e)) | Msg::GetUploadData(Err(e)) =>
            t == s && acts == seq![Action::Send(Msg::ResponseError(e))],
        Msg::UploadConfirm(_) => t == s && acts == seq![Action::Send(Msg::FinishUploadFiles)],
        Msg::FinishUploadFiles => t.request_upload_data@.len() == 0 && t.files_list@.len() == 0
            && t == (ServiceSettings { request_upload_data: t.request_upload_data, files_list: t.files_list, ..s })
            && acts == seq![Action::Send(Msg::RequestServiceFilesList)],
        Msg::UpdateName(v) => t == (ServiceSettings {
                request_service: ServiceUpdatePreData { name: v, ..req },
                update_service: true,
                disable_save_changes_btn: false,
                ..s
            })
            && acts == none(),
        Msg::UpdateDescription(v) => t == (ServiceSettings {
                request_service: ServiceUpdatePreData { description: v, ..req },
                update_service: true,
                disable_save_changes_btn: false,
                ..s
            })
            && acts == none(),
        Msg::ResponseError(e) => t == (ServiceSettings { error: Some(e), ..s }) && acts == none(),
        Msg::ClearError => t == (ServiceSettings { error: None, ..s }) && acts == none(),
        Msg::Ignore => t == s && acts == none(),
    }
}

/// What showing the page does: a visitor who is not signed in is sent to
/// the login page (which is to lead back here), and the service named by
/// the route fragment is loaded when the page first shows or the fragment
/// names another service (whose old data is then dropped).
pub open spec fn rendered(
    s: ServiceSettings,
    first_render: bool,
    logged_user: Option<String>,
    fragment: Seq<char>,
    t: ServiceSettings,
    acts: Seq<Action>,
) -> bool {
    let target = strip_leading(fragment, page_prefix());
    let changed = target != s.current_service_uuid@;
    let login = if logged_user.is_none() {
        seq![Action::Query(ServiceRequest::SetHistoryBack), Action::Route(AppRoute::Login)]
    } else {
        none()
    };
    let user_uuid: Seq<char> = match logged_user { Some(u) => u@, None => Seq::empty() };
    if first_render || changed {
        t.current_service_uuid@ == target
            && (if changed { t.current_service.is_none() && empty_form(t.request_service) } else {
                t.current_service == s.current_service && t.request_service == s.request_service
            })
            && t == (ServiceSettings {
                current_service_uuid: t.current_service_uuid,
                current_service: t.current_service,
                request_service: t.request_service,
                ..s
            })
            && acts.len() == login.len() + 1
            && acts.subrange(0, login.len() as int) == login
            && (acts.last() matches Action::Query(ServiceRequest::Load { service_uuid, user_uuid: u })
                && service_uuid@ == target && u@ == user_uuid)
    } else {
        t == s && acts == login
    }
}

/// Save law: saving sends the update of the service exactly when it was
/// edited; afterwards nothing is pending and the button is disabled.
pub proof fn lemma_save_sends_pending(s: ServiceSettings, t: ServiceSettings, acts: Seq<Action>)
    requires
        next(s, Msg::RequestManager, t, acts),
    ensures
        acts.len() > 0 <==> s.update_service,
        !t.update_service && t.disable_save_changes_btn,
{
}

/// Request law: saving asks for exactly one request, the update of the
/// service that is loaded with the form as edited; no other message asks
/// for an update.
pub proof fn lemma_update_targets_loaded_service(s: ServiceSettings, m: Msg, t: ServiceSettings, acts: Seq<Action>, i: int)
    requires
        next(s, m, t, acts),
        0 <= i < acts.len(),
    ensures
        m is RequestUpdateServiceData ==> acts == seq![
            Action::Query(ServiceRequest::Update { service_uuid: s.current_service_uuid, data: s.request_service }),
        ],
        acts[i] matches Action::Query(ServiceRequest::Update { .. }) ==> m is RequestUpdateServiceData,
{
}

impl ServiceSettings {
    /// Takes the uuid given to the page; the page is drawn again only when
    /// it changed.
    pub fn change(&mut self, service_uuid: String) -> (redraw: bool)
        ensures
            redraw == (service_uuid@ != old(self).service_uuid@),
            redraw ==> *final(self) == (ServiceSettings { service_uuid, ..*old(self) }),
            !redraw ==> *final(self) == *old(self),
    {
        if crate::route::same_text(self.service_uuid.as_str(), service_uuid.as_str()) {
            false
        } else {
            self.service_uuid = service_uuid;
            true
        }
    }

    /// The page as first created for the service `service_uuid`.
    pub fn new(service_uuid: String) -> (s: Self)
        ensures
            s.service_uuid == service_uuid,
            s.error.is_none(),
            s.current_service.is_none(),
            s.current_service_uuid@.len() == 0,
            empty_form(s.request_service),
            s.request_upload_data@.len() == 0,
            s.supplier_list@.len() == 0,
            s.regions@.len() == 0,
            !s.update_service,
            s.files_list@.len() == 0,
            s.disable_save_changes_btn,
            s.get_result_service_data == 0,
    {
        ServiceSettings {
            service_uuid,
            error: None,
            current_service: None,
            current_service_uuid: String::new(),
            request_service: ServiceUpdatePreData::empty(),
            request_upload_data: Vec::new(),
            supplier_list: Vec::new(),
            regions: Vec::new(),
            update_service: false,
            files_list: Vec::new(),
            disable_save_changes_btn: true,
            get_result_service_data: 0,
        }
    }

    /// Handles the showing of the page; see `rendered`.
    pub fn on_render(&mut self, first_render: bool, logged_user: Option<String>, fragment: &str) -> (acts: Vec<Action>)
        ensures
            rendered(*old(self), first_render, logged_user, fragment@, *final(self), acts@),
    {
        let mut acts: Vec<Action> = Vec::new();
        let ghost login = if logged_user.is_none() {
            seq![Action::Query(ServiceRequest::SetHistoryBack), Action::Route(AppRoute::Login)]
        } else {
            none()
        };
        let user_uuid = match logged_user {
            Some(u) => u,
            None => {
                acts.push(Action::Query(ServiceRequest::SetHistoryBack));
                acts.push(Action::Route(AppRoute::Login));
                String::new()
            },
        };
        assert(acts@ =~= login);
        let target = route_target(fragment, "#/service/settings/");
        let changed = !(target == self.current_service_uuid);
        if changed {
            self.current_service = None;
            self.current_service_uuid = String::new();
            self.request_service = ServiceUpdatePreData::empty();
        }
        if first_render || changed {
            self.current_service_uuid = target.clone();
            acts.push(Action::Query(ServiceRequest::Load { service_uuid: target, user_uuid }));
            assert(acts@.subrange(0, login.len() as int) == login);
        }
        acts
    }

    /// Handles one message; see `next`. The flag is whether the page is
    /// drawn again: not after a refused upload.
    #[verifier::rlimit(60)]
    #[verifier::spinoff_prover]
    pub fn update(&mut self, msg: Msg) -> (r: (bool, Vec<Action>))
        ensures
            next(*old(self), msg, *final(self), r.1@),
            r.0 == !(msg matches Msg::RequestUploadServiceFiles(names)
                && !upload_allowed(old(self).current_service_uuid@, names@.len())),
    {
        let mut acts: Vec<Action> = Vec::new();
        match msg {
            Msg::OpenService => {
                acts.push(Action::Route(AppRoute::ShowService(self.current_service_uuid.clone())));
            },
            Msg::RequestManager => {
                if self.update_service {
                    acts.push(Action::Send(Msg::RequestUpdateServiceData));
                }
                self.update_service = false;
                self.disable_save_changes_btn = true;
                self.get_result_service_data = 0;
            },
            Msg::RequestServiceFilesList => {
                acts.push(Action::Query(ServiceRequest::FilesList { service_uuid: self.service_uuid.clone() }));
            },
            Msg::RequestUpdateServiceData => {
                acts.push(Action::Query(ServiceRequest::Update {
                    service_uuid: self.current_service_uuid.clone(),
                    data: ServiceUpdatePreData {
                        name: self.request_service.name.clone(),
                        description: self.request_service.description.clone(),
                        region_id: self.request_service.region_id,
                    },
                }));
            },
            Msg::RequestUploadServiceFiles(filenames) => {
                if !can_upload(&self.current_service_uuid, &filenames) {
                    return (false, acts);
                }
                acts.push(Action::Query(ServiceRequest::UploadFiles {
                    service_uuid: self.current_service_uuid.clone(),
                    filenames,
                    commit_msg: String::new(),
                }));
            },
            Msg::GetServiceFilesList(res) => match res {
                Ok(files) => {
                    self.files_list = files;
                },
                Err(e) => {
                    acts.push(Action::Send(Msg::ResponseError(e)));
                },
            },
            Msg::GetUploadData(res) => match res {
                Ok(tickets) => {
                    self.request_upload_data = tickets;
                },
                Err(e) => {
                    acts.push(Action::Send(Msg::ResponseError(e)));
                },
            },
            Msg::GetServiceData(res) => match res {
                Ok(data) => {
                    self.current_service_uuid = data.uuid.clone();
                    self.files_list = copy_files(&data.files);
                    self.request_service = ServiceUpdatePreData::from_info(&data);
                    self.current_service = Some(data);
                },
                Err(e) => {
                    acts.push(Action::Send(Msg::ResponseError(e)));
                },
            },
            Msg::GetListOpt(res) => match res {
                Ok(lists) => {
                    self.supplier_list = lists.companies;
                    self.regions = lists.regions;
                },
                Err(e) => {
                    acts.push(Action::Send(Msg::ResponseError(e)));
                },
            },
            Msg::GetUpdateServiceResult(res) => match res {
                Ok(rows) => {
                    self.get_result_service_data = rows;
                },
                Err(e) => {
                    acts.push(Action::Send(Msg::ResponseError(e)));
                },
            },
            Msg::UploadConfirm(_) => {
                acts.push(Action::Send(Msg::FinishUploadFiles));
            },
            Msg::FinishUploadFiles => {
                self.request_upload_data.clear();
                self.files_list.clear();
                acts.push(Action::Send(Msg::RequestServiceFilesList));
            },
            Msg::UpdateName(v) => {
                self.request_service.name = v;
                self.update_service = true;
                self.disable_save_changes_btn = false;
            },
            Msg::UpdateDescription(v) => {
                self.request_service.description = v;
                self.update_service = true;
                self.disable_save_changes_btn = false;
            },
            Msg::ResponseError(e) => {
                self.error = Some(e);
            },
            Msg::ClearError => {
                self.error = None;
            },
            Msg::Ignore => {},
        }
        (true, acts)
    }
}

} // verus!
