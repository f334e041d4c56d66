//! The settings page of a standard: editing its data and access, attaching
//! files, and deleting it after its uuid has been typed again.

use vstd::prelude::*;
use crate::common::{
    FileInfo, UploadTicket, NamedId, CompanyShort, copy_files, can_upload, upload_allowed,
    i64_or_zero, usize_or_zero, decimal_i64, decimal_usize, parse_publication_date,
    publication_date_of,
};
use crate::route::{AppRoute, route_target, strip_leading};

verus! {

/// A standard as the settings page reads it; dates are unix seconds.
pub struct StandardInfo {
    pub uuid: String,
    pub classifier: String,
    pub name: String,
    pub description: String,
    pub specified_tolerance: String,
    pub technical_committee: String,
    pub publication_at: i64,
    pub owner_company_uuid: String,
    pub standard_status_id: usize,
    pub region_id: usize,
    pub standard_files: Vec<FileInfo>,
}

/// The edited data of a standard, sent when the changes are saved.
pub struct StandardUpdatePreData {
    pub classifier: String,
    pub name: String,
    pub description: String,
    pub specified_tolerance: String,
    pub technical_committee: String,
    pub publication_at: Option<i64>,
    pub company_uuid: String,
    pub standard_status_id: usize,
    pub region_id: usize,
}

/// The empty form.
pub open spec fn empty_form(f: StandardUpdatePreData) -> bool {
    &&& f.classifier@.len() == 0
    &&& f.name@.len() == 0
    &&& f.description@.len() == 0
    &&& f.specified_tolerance@.len() == 0
    &&& f.technical_committee@.len() == 0
    &&& f.publication_at.is_none()
    &&& f.company_uuid@.len() == 0
    &&& f.standard_status_id == 0
    &&& f.region_id == 0
}

impl StandardUpdatePreData {
    /// The empty form.
    pub fn empty() -> (f: Self)
        ensures
            empty_form(f),
    {
        StandardUpdatePreData {
            classifier: String::new(),
            name: String::new(),
            description: String::new(),
            specified_tolerance: String::new(),
            technical_committee: String::new(),
            publication_at: None,
            company_uuid: String::new(),
            standard_status_id: 0,
            region_id: 0,
        }
    }

    /// The form filled with the data of a standard.
    pub fn from_info(data: &StandardInfo) -> (f: Self)
        ensures
            f == form_of(*data),
    {
        StandardUpdatePreData {
            classifier: data.classifier.clone(),
            name: data.name.clone(),
            description: data.description.clone(),
            specified_tolerance: data.specified_tolerance.clone(),
            technical_committee: data.technical_committee.clone(),
            publication_at: Some(data.publication_at),
            company_uuid: data.owner_company_uuid.clone(),
            standard_status_id: data.standard_status_id,
            region_id: data.region_id,
        }
    }
}

/// The form filled with the data of a standard.
pub open spec fn form_of(d: StandardInfo) -> StandardUpdatePreData {
    StandardUpdatePreData {
        classifier: d.classifier,
        name: d.name,
        description: d.description,
        specified_tolerance: d.specified_tolerance,
        technical_committee: d.technical_committee,
        publication_at: Some(d.publication_at),
        company_uuid: d.owner_company_uuid,
        standard_status_id: d.standard_status_id,
        region_id: d.region_id,
    }
}

/// The option lists of the page.
pub struct StandardListOptions {
    pub companies: Vec<CompanyShort>,
    pub standard_statuses: Vec<NamedId>,
    pub regions: Vec<NamedId>,
    pub types_access: Vec<NamedId>,
}

/// A request to the server.
pub enum StandardRequest {
    /// The standard and the option lists, for the signed-in user.
    Load { standard_uuid: String, user_uuid: String },
    FilesList { standard_uuid: String },
    Update { standard_uuid: String, data: StandardUpdatePreData },
    ChangeAccess { standard_uuid: String, new_type_access_id: i64 },
    Delete { standard_uuid: String },
    UploadFiles { standard_uuid: String, filenames: Vec<String> },
}

/// What the page reacts to; replies arrive decoded, `Err` holding the
/// message of a failed reply.
pub enum Msg {
    OpenStandard,
    RequestManager,
    RequestStandardFilesList,
    RequestUpdateStandardData,
    RequestChangeAccess,
    RequestDeleteStandard,
    RequestUploadStandardFiles(Vec<String>),
    GetStandardFilesList(Result<Vec<FileInfo>, String>),
    GetStandardData(Result<StandardInfo, String>),
    GetListOpt(Result<StandardListOptions, String>),
    GetUpdateStandardResult(Result<usize, String>),
    GetUpdateAccessResult(Result<bool, String>),
    GetUploadData(Result<Vec<UploadTicket>, String>),
    UploadConfirm(usize),
    FinishUploadFiles,
    GetDeleteStandard(Result<String, String>),
    UpdateTypeAccessId(String),
    UpdateClassifier(String),
    UpdateName(String),
    UpdateDescription(String),
    UpdateSpecifiedTolerance(String),
    UpdateTechnicalCommittee(String),
    UpdatePublicationAt(String),
    UpdateCompanyUuid(String),
    UpdateStandardStatusId(String),
    UpdateRegionId(String),
    UpdateConfirmDelete(String),
    ResponseError(String),
    ChangeHideDeleteStandard,
    ClearError,
    Ignore,
}

/// What a transition asks for.
pub enum Action {
    Query(StandardRequest),
    Route(AppRoute),
    Send(Msg),
}

/// The state of the page.
pub struct StandardSettings {
    /// The uuid that the page was opened with.
    pub standard_uuid: String,
    pub error: Option<String>,
    pub current_standard: Option<StandardInfo>,
    pub current_standard_uuid: String,
    pub request_standard: StandardUpdatePreData,
    pub request_upload_data: Vec<UploadTicket>,
    pub request_access: i64,
    pub supplier_list: Vec<CompanyShort>,
    pub standard_statuses: Vec<NamedId>,
    pub regions: Vec<NamedId>,
    pub types_access: Vec<NamedId>,
    pub update_standard: bool,
    pub update_standard_access: bool,
    pub files_list: Vec<FileInfo>,
    pub disable_delete_standard_btn: bool,
    pub confirm_delete_standard: String,
    pub hide_delete_modal: bool,
    pub disable_save_changes_btn: bool,
    pub get_result_standard_data: usize,
    pub get_result_access: bool,
}

/// The prefix of the page's route.
pub open spec fn page_prefix() -> Seq<char> {
    "#/standard/settings/"@
}

/// A field of the standard was edited: its form becomes `req` and the
/// changes wait to be saved.
pub open spec fn edited(s: StandardSettings, req: StandardUpdatePreData) -> StandardSettings {
    StandardSettings { request_standard: req, update_standard: true, disable_save_changes_btn: false, ..s }
}

/// No action.
pub open spec fn none() -> Seq<Action> {
    Seq::<Action>::empty()
}

/// The transition of the page: from `s`, message `m` leads to `t` and asks
/// for `acts`.
pub open spec fn next(s: StandardSettings, m: Msg, t: StandardSettings, acts: Seq<Action>) -> bool {
    let req = s.request_standard;
    match m {
        Msg::OpenStandard => t == s && acts == seq![Action::Route(AppRoute::ShowStandard(s.current_standard_uuid))],
        Msg::RequestManager => t == (StandardSettings {
                update_standard: false,
                update_standard_access: false,
                disable_save_changes_btn: true,
                get_result_standard_data: 0,
                get_result_access: false,
                ..s
            })
            && acts == (if s.update_standard { seq![Action::Send(Msg::RequestUpdateStandardData)] } else { none() })
                + (if s.update_standard_access { seq![Action::Send(Msg::RequestChangeAccess)] } else { none() }),
        Msg::RequestStandardFilesList => t == s
            && acts == seq![Action::Query(StandardRequest::FilesList { standard_uuid: s.standard_uuid })],
        Msg::RequestUpdateStandardData => t == s
            && acts == seq![Action::Query(StandardRequest::Update { standard_uuid: s.current_standard_uuid, data: req })],
        Msg::RequestChangeAccess => t == s
            && acts == seq![Action::Query(StandardRequest::ChangeAccess {
                standard_uuid: s.current_standard_uuid,
                new_type_access_id: s.request_access,
            })],
        Msg::RequestDeleteStandard => t == s
            && acts == seq![Action::Query(StandardRequest::Delete { standard_uuid: s.current_standard_uuid })],
        Msg::RequestUploadStandardFiles(filenames) => t == s
            && acts == (if upload_allowed(s.current_standard_uuid@, filenames@.len()) {
                seq![Action::Query(StandardRequest::UploadFiles { standard_uuid: s.current_standard_uuid, filenames })]
            } else {
                none()
            }),
        Msg::GetStandardFilesList(Ok(files)) => t == (StandardSettings { files_list: files, ..s }) && acts == none(),
        Msg::GetUploadData(Ok(tickets)) => t == (StandardSettings { request_upload_data: tickets, ..s }) && acts == none(),
        Msg::GetStandardData(Ok(data)) => t.files_list@ == data.standard_files@
            && t == (StandardSettings {
                current_standard_uuid: data.uuid,
                files_list: t.files_list,
                current_standard: Some(data),
                request_standard: form_of(data),
                ..s
            })
            && acts == none(),
        Msg::GetListOpt(Ok(lists)) => t == (StandardSettings {
                supplier_list: lists.companies,
                standard_statuses: lists.standard_statuses,
                regions: lists.regions,
                types_access: lists.types_access,
                ..s
            })
            && acts == none(),
        Msg::GetUpdateStandardResult(Ok(rows)) => t == (StandardSettings { get_result_standard_data: rows, ..s }) && acts == none(),
        Msg::GetUpdateAccessResult(Ok(done)) => t == (StandardSettings { get_result_access: done, ..s }) && acts == none(),
        Msg::GetDeleteStandard(Ok(deleted)) => t == s
            && acts == (if s.current_standard_uuid@ == deleted@ {
                match s.current_standard {
                    Some(standard) => seq![Action::Route(AppRoute::ShowCompany(standard.owner_company_uuid))],
                    None => seq![Action::Route(AppRoute::Home)],
                }
            } else {
                none()
            }),
        Msg::GetStandardFilesList(Err(e)) | Msg::GetUploadData(Err(e)) | Msg::GetStandardData(Err(e))
        | Msg::GetListOpt(Err(e)) | Msg::GetUpdateStandardResult(Err(e)) | Msg::GetUpdateAccessResult(Err(e))
        | Msg::GetDeleteStandard(Err(e)) => t == s && acts == seq![Action::Send(Msg::ResponseError(e))],
        Msg::UploadConfirm(_) => t == s && acts == seq![Action::Send(Msg::FinishUploadFiles)],
        Msg::FinishUploadFiles => t.request_upload_data@.len() == 0 && t.files_list@.len() == 0
            && t == (StandardSettings { request_upload_data: t.request_upload_data, files_list: t.files_list, ..s })
            && acts == seq![Action::Send(Msg::RequestStandardFilesList)],
        Msg::UpdateTypeAccessId(data) => t == (StandardSettings {
                request_access: match decimal_i64(data@) { Some(v) => v, None => 0 },
                update_standard_access: true,
                disable_save_changes_btn: false,
                ..s
            })
            && acts == none(),
        Msg::UpdateClassifier(data) => t == edited(s, StandardUpdatePreData { classifier: data, ..req }) && acts == none(),
        Msg::UpdateName(data) => t == edited(s, StandardUpdatePreData { name: data, ..req }) && acts == none(),
        Msg::UpdateDescription(data) => t == edited(s, StandardUpdatePreData { description: data, ..req }) && acts == none(),
        Msg::UpdateSpecifiedTolerance(data) => t == edited(s, StandardUpdatePreData { specified_tolerance: data, ..req })
            && acts == none(),
        Msg::UpdateTechnicalCommittee(data) => t == edited(s, StandardUpdatePreData { technical_committee: data, ..req })
            && acts == none(),
        Msg::UpdatePublicationAt(data) => t == edited(s, StandardUpdatePreData {
                publication_at: match publication_date_of(data@) {
                    Some(at) => Some(at),
                    None => match s.current_standard {
                        Some(cs) => Some(cs.publication_at),
                        None => req.publication_at,
                    },
                },
                ..req
            })
            && acts == none(),
        Msg::UpdateCompanyUuid(data) => t == edited(s, StandardUpdatePreData { company_uuid: data, ..req }) && acts == none(),
        Msg::UpdateStandardStatusId(data) => t == edited(s, StandardUpdatePreData {
                standard_status_id: match decimal_usize(data@) { Some(v) => v, None => 0 },
                ..req
            })
            && acts == none(),
        Msg::UpdateRegionId(data) => t == (StandardSettings {
                request_standard: StandardUpdatePreData {
                    region_id: match decimal_usize(data@) { Some(v) => v, None => 0 },
                    ..req
                },
                ..s
            })
            && acts == none(),
        Msg::UpdateConfirmDelete(data) => t == (StandardSettings {
                disable_delete_standard_btn: s.current_standard_uuid@ != data@,
                confirm_delete_standard: data,
                ..s
            })
            && acts == none(),
        Msg::ResponseError(e) => t == (StandardSettings { error: Some(e), ..s }) && acts == none(),
        Msg::ChangeHideDeleteStandard => t == (StandardSettings { hide_delete_modal: !s.hide_delete_modal, ..s })
            && acts == none(),
        Msg::ClearError => t == (StandardSettings { error: None, ..s }) && acts == none(),
        Msg::Ignore => t == s && acts == none(),
    }
}

/// What showing the page does: send to the login page a visitor who is not
/// signed in, and load the standard named by the route fragment when the
/// page first shows or the fragment names another standard (whose old data
/// is then dropped).
pub open spec fn rendered(
    s: StandardSettings,
    first_render: bool,
    logged_user: Option<String>,
    fragment: Seq<char>,
    t: StandardSettings,
    acts: Seq<Action>,
) -> bool {
    let target = strip_leading(fragment, page_prefix());
    let changed = target != s.current_standard_uuid@;
    let login = if logged_user.is_none() { seq![Action::Route(AppRoute::Login)] } else { none() };
    let user_uuid: Seq<char> = match logged_user { Some(u) => u@, None => Seq::empty() };
    if first_render || changed {
        t.current_standard_uuid@ == target
            && (if changed { t.current_standard.is_none() && empty_form(t.request_standard) } else {
                t.current_standard == s.current_standard && t.request_standard == s.request_standard
            })
            && t == (StandardSettings {
                current_standard_uuid: t.current_standard_uuid,
                current_standard: t.current_standard,
                request_standard: t.request_standard,
                ..s
            })
            && acts.len() == login.len() + 1
            && acts.subrange(0, login.len() as int) == login
            && (acts.last() matches Action::Query(StandardRequest::Load { standard_uuid, user_uuid: u })
                && standard_uuid@ == target && u@ == user_uuid)
    } else {
        t == s && acts == login
    }
}

/// Pending edits keep the save button enabled.
pub open spec fn save_enabled_when_pending(s: StandardSettings) -> bool {
    (s.update_standard || s.update_standard_access) ==> !s.disable_save_changes_btn
}

/// Save law: whatever the page handles, while some edit waits to be saved
/// the save button stays enabled (the page starts with none pending).
pub proof fn lemma_pending_edits_keep_save_enabled(s: StandardSettings, m: Msg, t: StandardSettings, acts: Seq<Action>)
    requires
        save_enabled_when_pending(s),
        next(s, m, t, acts),
    ensures
        save_enabled_when_pending(t),
{
}

/// Save law, on showing the page: the button and the edit flags are left
/// as they were.
pub proof fn lemma_render_keeps_save_state(
    s: StandardSettings,
    first_render: bool,
    logged_user: Option<String>,
    fragment: Seq<char>,
    t: StandardSettings,
    acts: Seq<Action>,
)
    requires
        save_enabled_when_pending(s),
        rendered(s, first_render, logged_user, fragment, t, acts),
    ensures
        save_enabled_when_pending(t),
        t.update_standard == s.update_standard,
        t.update_standard_access == s.update_standard_access,
        t.disable_save_changes_btn == s.disable_save_changes_btn,
{
}

/// Save law: saving sends one update of the standard's data when that data
/// was edited, one change of access when the access was changed, and
/// nothing else; afterwards nothing is pending and the button is disabled.
pub proof fn lemma_save_sends_pending(s: StandardSettings, t: StandardSettings, acts: Seq<Action>)
    requires
        next(s, Msg::RequestManager, t, acts),
    ensures
        acts.len() == (if s.update_standard { 1int } else { 0 }) + (if s.update_standard_access { 1int } else { 0 }),
        s.update_standard ==> acts[0] == Action::Send(Msg::RequestUpdateStandardData),
        s.update_standard_access ==> acts.last() == Action::Send(Msg::RequestChangeAccess),
        !t.update_standard && !t.update_standard_access && t.disable_save_changes_btn,
{
}

/// Request law: deleting, saving and changing access each ask for exactly
/// one request, about the standard that is loaded: its deletion, its update
/// with the form as edited, its change to the chosen access.
pub proof fn lemma_requests_target_loaded_standard(s: StandardSettings, m: Msg, t: StandardSettings, acts: Seq<Action>)
    requires
        next(s, m, t, acts),
    ensures
        m is RequestDeleteStandard ==> acts
            == seq![Action::Query(StandardRequest::Delete { standard_uuid: s.current_standard_uuid })],
        m is RequestUpdateStandardData ==> acts == seq![
            Action::Query(StandardRequest::Update { standard_uuid: s.current_standard_uuid, data: s.request_standard }),
        ],
        m is RequestChangeAccess ==> acts == seq![
            Action::Query(StandardRequest::ChangeAccess {
                standard_uuid: s.current_standard_uuid,
                new_type_access_id: s.request_access,
            }),
        ],
{
}

/// Request law: of all messages, only the delete message asks to delete the
/// standard, only the save message asks to update it, and only the access
/// message asks to change its access.
pub proof fn lemma_requests_come_from_their_messages(s: StandardSettings, m: Msg, t: StandardSettings, acts: Seq<Action>, i: int)
    requires
        next(s, m, t, acts),
        0 <= i < acts.len(),
    ensures
        acts[i] matches Action::Query(StandardRequest::Delete { .. }) ==> m is RequestDeleteStandard,
        acts[i] matches Action::Query(StandardRequest::Update { .. }) ==> m is RequestUpdateStandardData,
        acts[i] matches Action::Query(StandardRequest::ChangeAccess { .. }) ==> m is RequestChangeAccess,
{
}

impl StandardSettings {
    /// Takes the uuid given to the page; the page is drawn again only when
    /// it changed.
    pub fn change(&mut self, standard_uuid: String) -> (redraw: bool)
        ensures
            redraw == (standard_uuid@ != old(self).standard_uuid@),
            redraw ==> *final(self) == (StandardSettings { standard_uuid, ..*old(self) }),
            !redraw ==> *final(self) == *old(self),
    {
        if crate::route::same_text(self.standard_uuid.as_str(), standard_uuid.as_str()) {
            false
        } else {
            self.standard_uuid = standard_uuid;
            true
        }
    }

    /// Takes the publication date read from its field (`parsed`, unix
    /// seconds): a date replaces the form's; no date puts back the loaded
    /// standard's date, or leaves the form's where none is loaded. Either
    /// way the form counts as edited.
    pub fn apply_publication_at(&mut self, parsed: Option<i64>)
        ensures
            *final(self) == edited(*old(self), StandardUpdatePreData {
                publication_at: match parsed {
                    Some(at) => Some(at),
                    None => match old(self).current_standard {
                        Some(cs) => Some(cs.publication_at),
                        None => old(self).request_standard.publication_at,
                    },
                },
                ..old(self).request_standard
            }),
    {
        self.request_standard.publication_at = match parsed {
            Some(at) => Some(at),
            None => match &self.current_standard {
                Some(cs) => Some(cs.publication_at),
                None => self.request_standard.publication_at,
            },
        };
        self.update_standard = true;
        self.disable_save_changes_btn = false;
    }

    /// The page as first created for the standard `standard_uuid`.
    pub fn new(standard_uuid: String) -> (s: Self)
        ensures
            s.standard_uuid == standard_uuid,
            s.error.is_none(),
            s.current_standard.is_none(),
            s.current_standard_uuid@.len() == 0,
            empty_form(s.request_standard),
            s.request_upload_data@.len() == 0,
            s.request_access == 0,
            s.supplier_list@.len() == 0,
            s.standard_statuses@.len() == 0,
            s.regions@.len() == 0,
            s.types_access@.len() == 0,
            !s.update_standard,
            !s.update_standard_access,
            s.files_list@.len() == 0,
            s.disable_delete_standard_btn,
            s.confirm_delete_standard@.len() == 0,
            s.hide_delete_modal,
            s.disable_save_changes_btn,
            s.get_result_standard_data == 0,
            !s.get_result_access,
    {
        StandardSettings {
            standard_uuid,
            error: None,
            current_standard: None,
            current_standard_uuid: String::new(),
            request_standard: StandardUpdatePreData::empty(),
            request_upload_data: Vec::new(),
            request_access: 0,
            supplier_list: Vec::new(),
            standard_statuses: Vec::new(),
            regions: Vec::new(),
            types_access: Vec::new(),
            update_standard: false,
            update_standard_access: false,
            files_list: Vec::new(),
            disable_delete_standard_btn: true,
            confirm_delete_standard: String::new(),
            hide_delete_modal: true,
            disable_save_changes_btn: true,
            get_result_standard_data: 0,
            get_result_access: false,
        }
    }

    /// Handles the showing of the page; see `rendered`. `fragment` is the
    /// route fragment of the browser and `logged_user` the uuid of the
    /// signed-in user, if any.
    pub fn on_render(&mut self, first_render: bool, logged_user: Option<String>, fragment: &str) -> (acts: Vec<Action>)
        ensures
            rendered(*old(self), first_render, logged_user, fragment@, *final(self), acts@),
    {
        let mut acts: Vec<Action> = Vec::new();
        let ghost login = if logged_user.is_none() { seq![Action::Route(AppRoute::Login)] } else { none() };
        let user_uuid = match logged_user {
            Some(u) => u,
            None => {
                acts.push(Action::Route(AppRoute::Login));
                String::new()
            },
        };
        assert(acts@ == login);
        let target = route_target(fragment, "#/standard/settings/");
        let changed = !(target == self.current_standard_uuid);
        if changed {
            self.current_standard = None;
            self.current_standard_uuid = String::new();
            self.request_standard = StandardUpdatePreData::empty();
        }
        if first_render || changed {
            self.current_standard_uuid = target.clone();
            acts.push(Action::Query(StandardRequest::Load { standard_uuid: target, user_uuid }));
            assert(acts@.subrange(0, login.len() as int) == login);
        }
        acts
    }

    /// Handles one message; see `next`.
    #[verifier::rlimit(60)]
    #[verifier::spinoff_prover]
    pub fn update(&mut self, msg: Msg) -> (r: (bool, Vec<Action>))
        ensures
            next(*old(self), msg, *final(self), r.1@),
            r.0 == !(msg matches Msg::RequestUploadStandardFiles(names)
                && !upload_allowed(old(self).current_standard_uuid@, names@.len())),
    {
        let mut acts: Vec<Action> = Vec::new();
        match msg {
            Msg::OpenStandard => {
                acts.push(Action::Route(AppRoute::ShowStandard(self.current_standard_uuid.clone())));
            },
            Msg::RequestManager => {
                if self.update_standard {
                    acts.push(Action::Send(Msg::RequestUpdateStandardData));
                }
                if self.update_standard_access {
                    acts.push(Action::Send(Msg::RequestChangeAccess));
                }
                assert(acts@ =~= (if self.update_standard { seq![Action::Send(Msg::RequestUpdateStandardData)] } else { none() })
                    + (if self.update_standard_access { seq![Action::Send(Msg::RequestChangeAccess)] } else { none() }));
                self.update_standard = false;
                self.update_standard_access = false;
                self.disable_save_changes_btn = true;
                self.get_result_standard_data = 0;
                self.get_result_access = false;
            },
            Msg::RequestStandardFilesList => {
                acts.push(Action::Query(StandardRequest::FilesList { standard_uuid: self.standard_uuid.clone() }));
            },
            Msg::RequestUpdateStandardData => {
                let data = StandardUpdatePreData {
                    classifier: self.request_standard.classifier.clone(),
                    name: self.request_standard.name.clone(),
                    description: self.request_standard.description.clone(),
                    specified_tolerance: self.request_standard.specified_tolerance.clone(),
                    technical_committee: self.request_standard.technical_committee.clone(),
                    publication_at: self.request_standard.publication_at,
                    company_uuid: self.request_standard.company_uuid.clone(),
                    standard_status_id: self.request_standard.standard_status_id,
                    region_id: self.request_standard.region_id,
                };
                acts.push(Action::Query(StandardRequest::Update {
                    standard_uuid: self.current_standard_uuid.clone(),
                    data,
                }));
            },
            Msg::RequestChangeAccess => {
                acts.push(Action::Query(StandardRequest::ChangeAccess {
                    standard_uuid: self.current_standard_uuid.clone(),
                    new_type_access_id: self.request_access,
                }));
            },
            Msg::RequestDeleteStandard => {
                acts.push(Action::Query(StandardRequest::Delete { standard_uuid: self.current_standard_uuid.clone() }));
            },
            Msg::RequestUploadStandardFiles(filenames) => {
                if !can_upload(&self.current_standard_uuid, &filenames) {
                    return (false, acts);
                }
                acts.push(Action::Query(StandardRequest::UploadFiles {
                    standard_uuid: self.current_standard_uuid.clone(),
                    filenames,
                }));
            },
            Msg::GetStandardFilesList(res) => match res {
                Ok(files) => {
                    self.files_list = files;
                },
                Err(e) => {
                    acts.push(Action::Send(Msg::ResponseError(e)));
                },
            },
            Msg::GetUploadData(res) => match res {
                Ok(tickets) => {
                    self.request_upload_data = tickets;
                },
                Err(e) => {
                    acts.push(Action::Send(Msg::ResponseError(e)));
                },
            },
            Msg::GetStandardData(res) => match res {
                Ok(data) => {
                    self.current_standard_uuid = data.uuid.clone();
                    self.files_list = copy_files(&data.standard_files);
                    self.request_standard = StandardUpdatePreData::from_info(&data);
                    self.current_standard = Some(data);
                },
                Err(e) => {
                    acts.push(Action::Send(Msg::ResponseError(e)));
                },
            },
            Msg::GetListOpt(res) => match res {
                Ok(lists) => {
                    self.supplier_list = lists.companies;
                    self.standard_statuses = lists.standard_statuses;
                    self.regions = lists.regions;
                    self.types_access = lists.types_access;
                },
                Err(e) => {
                    acts.push(Action::Send(Msg::ResponseError(e)));
                },
            },
            Msg::GetUpdateStandardResult(res) => match res {
                Ok(rows) => {
                    self.get_result_standard_data = rows;
                },
                Err(e) => {
                    acts.push(Action::Send(Msg::ResponseError(e)));
                },
            },
            Msg::GetUpdateAccessResult(res) => match res {
                Ok(done) => {
                    self.get_result_access = done;
                },
                Err(e) => {
                    acts.push(Action::Send(Msg::ResponseError(e)));
                },
            },
            Msg::UploadConfirm(_) => {
                acts.push(Action::Send(Msg::FinishUploadFiles));
            },
            Msg::FinishUploadFiles => {
                self.request_upload_data.clear();
                self.files_list.clear();
                acts.push(Action::Send(Msg::RequestStandardFilesList));
            },
            Msg::GetDeleteStandard(res) => match res {
                Ok(deleted) => {
                    if self.current_standard_uuid == deleted {
                        match &self.current_standard {
                            Some(standard) => {
                                acts.push(Action::Route(AppRoute::ShowCompany(standard.owner_company_uuid.clone())));
                            },
                            None => {
                                acts.push(Action::Route(AppRoute::Home));
                            },
                        }
                    }
                },
                Err(e) => {
                    acts.push(Action::Send(Msg::ResponseError(e)));
                },
            },
            Msg::UpdateTypeAccessId(data) => {
                self.request_access = i64_or_zero(data.as_str());
                self.update_standard_access = true;
                self.disable_save_changes_btn = false;
            },
            Msg::UpdateClassifier(data) => {
                self.request_standard.classifier = data;
                self.update_standard = true;
                self.disable_save_changes_btn = false;
            },
            Msg::UpdateName(data) => {
                self.request_standard.name = data;
                self.update_standard = true;
                self.disable_save_changes_btn = false;
            },
            Msg::UpdateDescription(data) => {
                self.request_standard.description = data;
                self.update_standard = true;
                self.disable_save_changes_btn = false;
            },
            Msg::UpdateSpecifiedTolerance(data) => {
                self.request_standard.specified_tolerance = data;
                self.update_standard = true;
                self.disable_save_changes_btn = false;
            },
            Msg::UpdateTechnicalCommittee(data) => {
                self.request_standard.technical_committee = data;
                self.update_standard = true;
                self.disable_save_changes_btn = false;
            },
            Msg::UpdatePublicationAt(data) => {
                let parsed = parse_publication_date(data.as_str());
                self.apply_publication_at(parsed);
            },
            Msg::UpdateCompanyUuid(data) => {
                self.request_standard.company_uuid = data;
                self.update_standard = true;
                self.disable_save_changes_btn = false;
            },
            Msg::UpdateStandardStatusId(data) => {
                self.request_standard.standard_status_id = usize_or_zero(data.as_str());
                self.update_standard = true;
                self.disable_save_changes_btn = false;
            },
            Msg::UpdateRegionId(data) => {
                self.request_standard.region_id = usize_or_zero(data.as_str());
            },
            Msg::UpdateConfirmDelete(data) => {
                self.disable_delete_standard_btn = !(self.current_standard_uuid == data);
                self.confirm_delete_standard = data;
            },
            Msg::ResponseError(e) => {
                self.error = Some(e);
            },
            Msg::ChangeHideDeleteStandard => {
                self.hide_delete_modal = !self.hide_delete_modal;
            },
            Msg::ClearError => {
                self.error = None;
            },
            Msg::Ignore => {},
        }
        (true, acts)
    }
}

} // verus!
