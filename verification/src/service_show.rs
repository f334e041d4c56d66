//! The page that shows an ordered service: its data and files.

use vstd::prelude::*;
use crate::common::{DownloadFile, byte_len};
use crate::route::{AppRoute, route_target, strip_leading, same_text};
use crate::standard_show::with_files;

verus! {

/// A service as the page reads it.
pub struct ServiceData {
    pub uuid: String,
    pub name: String,
    pub description: String,
    /// The uuid of the user who owns the service.
    pub owner_uuid: String,
}

/// A request to the server or to the browser.
pub enum ShowServiceRequest {
    Load { service_uuid: String },
    Files { service_uuid: String },
    /// Remember that the login page should lead back here.
    SetHistoryBack,
    /// Show the text as the window's title.
    SetTitle(String),
}

/// What the page reacts to; replies arrive decoded, `Err` holding the
/// message of a failed reply.
pub enum Msg {
    RequestDownloadFiles,
    GetDownloadFilesResult(Result<Vec<DownloadFile>, String>),
    GetServiceData(Result<ServiceData, String>),
    ShowComponentsList,
    OpenDiscussionBlock,
    OpenServiceSetting,
    ResponseError(String),
    ClearError,
    Ignore,
}

/// What a transition asks for.
pub enum Action {
    Query(ShowServiceRequest),
    Route(AppRoute),
    Send(Msg),
}

/// The state of the page.
pub struct ShowService {
    /// The uuid that the page was given.
    pub props_service_uuid: String,
    pub error: Option<String>,
    pub service: Option<ServiceData>,
    pub current_service_uuid: String,
    pub current_user_owner: bool,
    pub show_full_description: bool,
    pub show_related_components: bool,
    pub open_discussion_card: bool,
    pub file_arr: Vec<DownloadFile>,
}

/// No action.
pub open spec fn none() -> Seq<Action> {
    Seq::<Action>::empty()
}

/// The prefix of the page's route.
pub open spec fn page_prefix() -> Seq<char> {
    "#/service/"@
}

/// The transition of the page: from `s`, message `m` (with the signed-in
/// user `logged_user`, by uuid) leads to `t` and asks for `acts`.
pub open spec fn next(s: ShowService, m: Msg, logged_user: Option<String>, t: ShowService, acts: Seq<Action>) -> bool {
    match m {
        Msg::RequestDownloadFiles => t == s
            && acts == seq![Action::Query(ShowServiceRequest::Files { service_uuid: s.props_service_uuid })],
        Msg::GetDownloadFilesResult(Ok(files)) => acts == none()
            && t.file_arr@ == with_files(s.file_arr@, files@)
            && t == (ShowService { file_arr: t.file_arr, ..s }),
        Msg::GetDownloadFilesResult(Err(e)) | Msg::GetServiceData(Err(e)) =>
            t == s && acts == seq![Action::Send(Msg::ResponseError(e))],
        Msg::GetServiceData(Ok(d)) => acts == none() && t == (ShowService {
            current_service_uuid: d.uuid,
            current_user_owner: match logged_user {
                Some(u) => d.owner_uuid@ == u@,
                None => s.current_user_owner,
            },
            show_full_description: byte_len(d.description@) < 250,
            service: Some(d),
            ..s
        }),
        Msg::ShowComponentsList => t == (ShowService { show_related_components: !s.show_related_components, ..s })
            && acts == none(),
        Msg::OpenDiscussionBlock => t == (ShowService { open_discussion_card: !s.open_discussion_card, ..s })
            && acts == none(),
        Msg::OpenServiceSetting => t == s && acts == (match s.service {
            Some(d) => seq![Action::Route(AppRoute::ServiceSettings(d.uuid))],
            None => none(),
        }),
        Msg::ResponseError(e) => t == (ShowService { error: Some(e), ..s }) && acts == none(),
        Msg::ClearError => t == (ShowService { error: None, ..s }) && acts == none(),
        Msg::Ignore => t == s && acts == none(),
    }
}

/// What showing the page does: a visitor who is not signed in is sent to
/// the login page (which is to lead back here), the window title is the
/// loaded service's name, and the service named by the route fragment is
/// loaded with its files when the page first shows or the fragment names
/// another service.
pub open spec fn rendered(
    s: ShowService,
    first_render: bool,
    logged_in: bool,
    fragment: Seq<char>,
    t: ShowService,
    acts: Seq<Action>,
) -> bool {
    let target = strip_leading(fragment, page_prefix());
    let changed = target != s.current_service_uuid@;
    let login = if logged_in {
        none()
    } else {
        seq![Action::Query(ShowServiceRequest::SetHistoryBack), Action::Route(AppRoute::Login)]
    };
    let title = match s.service {
        Some(d) => seq![Action::Query(ShowServiceRequest::SetTitle(d.name))],
        None => none(),
    };
    if first_render || changed {
        &&& t.current_service_uuid@ == target
        &&& t == (ShowService { current_service_uuid: t.current_service_uuid, ..s })
        &&& acts.len() == login.len() + title.len() + 2
        &&& acts.subrange(0, (login.len() + title.len()) as int) == login + title
        &&& acts[acts.len() - 2] == Action::Send(Msg::RequestDownloadFiles)
        &&& acts[acts.len() - 1] matches Action::Query(ShowServiceRequest::Load { service_uuid: a })
        &&& a@ == target
    } else {
        t == s && acts == login + title
    }
}

/// Page law: the files asked for are those of the service the page was
/// opened for, and the settings button leads to the settings of the
/// service that is loaded (and nowhere while none is).
pub proof fn lemma_requests_for_this_service(s: ShowService, m: Msg, logged_user: Option<String>, t: ShowService, acts: Seq<Action>)
    requires
        next(s, m, logged_user, t, acts),
    ensures
        m is RequestDownloadFiles ==> acts == seq![Action::Query(ShowServiceRequest::Files { service_uuid: s.props_service_uuid })],
        m is OpenServiceSetting ==> (s.service matches Some(d) ==> acts == seq![Action::Route(AppRoute::ServiceSettings(d.uuid))]),
        m is OpenServiceSetting && s.service is None ==> acts.len() == 0,
{
}

/// Ownership law: the page shows its owner controls only to the user who
/// owns the loaded service; a visitor's reading leaves the flag as it was.
pub proof fn lemma_owner_is_signed_in_owner(s: ShowService, d: ServiceData, u: String, t: ShowService, acts: Seq<Action>)
    requires
        next(s, Msg::GetServiceData(Ok(d)), Some(u), t, acts),
    ensures
        t.current_user_owner <==> d.owner_uuid@ == u@,
        t.service == Some(d),
{
}

impl ShowService {
    /// The page as first created for the service `service_uuid`.
    pub fn new(service_uuid: String) -> (s: Self)
        ensures
            s.props_service_uuid == service_uuid,
            s.error.is_none(),
            s.service.is_none(),
            s.current_service_uuid@.len() == 0,
            !s.current_user_owner,
            !s.show_full_description,
            !s.show_related_components,
            !s.open_discussion_card,
            s.file_arr@.len() == 0,
    {
        ShowService {
            props_service_uuid: service_uuid,
            error: None,
            service: None,
            current_service_uuid: String::new(),
            current_user_owner: false,
            show_full_description: false,
            show_related_components: false,
            open_discussion_card: false,
            file_arr: Vec::new(),
        }
    }

    /// Takes the service uuid given to the page; the page is drawn again
    /// only when it changed.
    pub fn change(&mut self, service_uuid: String) -> (redraw: bool)
        ensures
            redraw == (service_uuid@ != old(self).props_service_uuid@),
            redraw ==> *final(self) == (ShowService { props_service_uuid: service_uuid, ..*old(self) }),
            !redraw ==> *final(self) == *old(self),
    {
        if same_text(self.props_service_uuid.as_str(), service_uuid.as_str()) {
            false
        } else {
            self.props_service_uuid = service_uuid;
            true
        }
    }

    /// Handles the showing of the page; see `rendered`.
    pub fn on_render(&mut self, first_render: bool, logged_in: bool, fragment: &str) -> (acts: Vec<Action>)
        ensures
            rendered(*old(self), first_render, logged_in, fragment@, *final(self), acts@),
    {
        let ghost s = *self;
        let mut acts: Vec<Action> = Vec::new();
        if !logged_in {
            acts.push(Action::Query(ShowServiceRequest::SetHistoryBack));
            acts.push(Action::Route(AppRoute::Login));
        }
        match &self.service {
            Some(d) => {
                acts.push(Action::Query(ShowServiceRequest::SetTitle(d.name.clone())));
            },
            None => {},
        }
        let ghost head = acts@;
        proof {
            let login = if logged_in {
                none()
            } else {
                seq![Action::Query(ShowServiceRequest::SetHistoryBack), Action::Route(AppRoute::Login)]
            };
            let title = match s.service {
                Some(d) => seq![Action::Query(ShowServiceRequest::SetTitle(d.name))],
                None => none(),
            };
            assert(head =~= login + title);
        }
        let target = route_target(fragment, "#/service/");
        let changed = !same_text(target.as_str(), self.current_service_uuid.as_str());
        if first_render || changed {
            self.current_service_uuid = target.clone();
            acts.push(Action::Send(Msg::RequestDownloadFiles));
            acts.push(Action::Query(ShowServiceRequest::Load { service_uuid: target }));
            assert(acts@.subrange(0, head.len() as int) == head);
        }
        acts
    }

    /// Handles one message, with the signed-in user by uuid; see `next`.
    /// The page is drawn again after each.
    #[verifier::rlimit(40)]
    pub fn update(&mut self, msg: Msg, logged_user: Option<String>) -> (acts: Vec<Action>)
        ensures
            next(*old(self), msg, logged_user, *final(self), acts@),
    {
        let mut acts: Vec<Action> = Vec::new();
        match msg {
            Msg::RequestDownloadFiles => {
                acts.push(Action::Query(ShowServiceRequest::Files { service_uuid: self.props_service_uuid.clone() }));
            },
            Msg::GetDownloadFilesResult(res) => match res {
                Ok(files) => {
                    if files.len() > 0 {
                        let mut files = files;
                        if self.file_arr.len() > 0 {
                            files.push(self.file_arr[0].duplicate());
                        }
                        self.file_arr = files;
                    }
                },
                Err(e) => {
                    acts.push(Action::Send(Msg::ResponseError(e)));
                },
            },
            Msg::GetServiceData(res) => match res {
                Ok(d) => {
                    self.current_service_uuid = d.uuid.clone();
                    match &logged_user {
                        Some(u) => {
                            self.current_user_owner = same_text(d.owner_uuid.as_str(), u.as_str());
                        },
                        None => {},
                    }
                    self.show_full_description = d.description.as_str().len() < 250;
                    self.service = Some(d);
                },
                Err(e) => {
                    acts.push(Action::Send(Msg::ResponseError(e)));
                },
            },
            Msg::ShowComponentsList => {
                self.show_related_components = !self.show_related_components;
            },
            Msg::OpenDiscussionBlock => {
                self.open_discussion_card = !self.open_discussion_card;
            },
            Msg::OpenServiceSetting => {
                match &self.service {
                    Some(d) => {
                        acts.push(Action::Route(AppRoute::ServiceSettings(d.uuid.clone())));
                    },
                    None => {},
                }
            },
            Msg::ResponseError(e) => {
                self.error = Some(e);
            },
            Msg::ClearError => {
                self.error = None;
            },
            Msg::Ignore => {},
        }
        acts
    }
}

} // verus!
