//! The page that shows a standard: its data, files and followers.

use vstd::prelude::*;
use crate::common::{DownloadFile, byte_len, first_chars, first_chars_of};
use crate::route::{AppRoute, route_target, strip_leading, same_text};

verus! {

/// A standard as the page reads it.
pub struct StandardData {
    pub uuid: String,
    pub name: String,
    pub description: String,
    /// The uuid of the user who owns the standard.
    pub owner_uuid: String,
    pub subscribers: usize,
    pub is_followed: bool,
    pub image_file: DownloadFile,
}

/// A request to the server or to the browser.
pub enum ShowStandardRequest {
    Load { standard_uuid: String },
    Files { standard_uuid: String },
    AddFav { standard_uuid: String },
    DeleteFav { standard_uuid: String },
    /// Remember that the login page should lead back here.
    SetHistoryBack,
    /// Show the text as the window's title.
    SetTitle(String),
}

/// What the page reacts to; replies arrive decoded, `Err` holding the
/// message of a failed reply.
pub enum Msg {
    RequestDownloadFiles,
    Follow,
    AddFollow(Result<bool, String>),
    UnFollow,
    DelFollow(Result<bool, String>),
    GetDownloadFilesResult(Result<Vec<DownloadFile>, String>),
    GetStandardData(Result<StandardData, String>),
    ShowDescription,
    ShowComponentsList,
    ShowCompanyCard,
    OpenStandardSetting,
    ResponseError(String),
    ClearError,
    Ignore,
}

/// What a transition asks for.
pub enum Action {
    Query(ShowStandardRequest),
    Route(AppRoute),
    Send(Msg),
}

/// The state of the page.
pub struct ShowStandard {
    /// The uuid that the page was given.
    pub props_standard_uuid: String,
    pub error: Option<String>,
    pub standard: Option<StandardData>,
    pub current_standard_uuid: String,
    pub current_user_owner: bool,
    pub subscribers: usize,
    pub is_followed: bool,
    pub show_full_description: bool,
    pub show_related_components: bool,
    pub show_owner_company: bool,
    pub file_arr: Vec<DownloadFile>,
}

/// No action.
pub open spec fn none() -> Seq<Action> {
    Seq::<Action>::empty()
}

/// The prefix of the page's route.
pub open spec fn page_prefix() -> Seq<char> {
    "#/standard/"@
}

/// The file list once the standard's files arrive: the files, then the
/// image shown until then (the main image), if there was one; an empty
/// reply changes nothing.
pub open spec fn with_files(shown: Seq<DownloadFile>, files: Seq<DownloadFile>) -> Seq<DownloadFile> {
    if files.len() == 0 {
        shown
    } else if shown.len() > 0 {
        files.push(shown[0])
    } else {
        files
    }
}

/// The messages that the page cannot take in state `s` (it would fail):
/// following or unfollowing before the standard is loaded, and a counter
/// that would leave the range of `usize`.
pub open spec fn accepts(s: ShowStandard, m: Msg) -> bool {
    &&& (m is Follow || m is UnFollow) ==> s.standard.is_some()
    &&& m == Msg::AddFollow(Ok(true)) ==> s.subscribers < usize::MAX
    &&& m == Msg::DelFollow(Ok(true)) ==> s.subscribers > 0
}

/// The transition of the page: from `s`, message `m` (with the signed-in
/// user `logged_user`, by uuid) leads to `t` and asks for `acts`.
pub open spec fn next(s: ShowStandard, m: Msg, logged_user: Option<String>, t: ShowStandard, acts: Seq<Action>) -> bool {
    match m {
        Msg::RequestDownloadFiles => t == s
            && acts == seq![Action::Query(ShowStandardRequest::Files { standard_uuid: s.props_standard_uuid })],
        Msg::Follow => t == s
            && acts == seq![Action::Query(ShowStandardRequest::AddFav { standard_uuid: s.standard.unwrap().uuid })],
        Msg::UnFollow => t == s
            && acts == seq![Action::Query(ShowStandardRequest::DeleteFav { standard_uuid: s.standard.unwrap().uuid })],
        Msg::AddFollow(Ok(done)) => acts == none()
            && t == (if done { ShowStandard { subscribers: (s.subscribers + 1) as usize, is_followed: true, ..s } } else { s }),
        Msg::DelFollow(Ok(done)) => acts == none()
            && t == (if done { ShowStandard { subscribers: (s.subscribers - 1) as usize, is_followed: false, ..s } } else { s }),
        Msg::AddFollow(Err(e)) | Msg::DelFollow(Err(e)) | Msg::GetDownloadFilesResult(Err(e))
        | Msg::GetStandardData(Err(e)) => t == s && acts == seq![Action::Send(Msg::ResponseError(e))],
        Msg::GetDownloadFilesResult(Ok(files)) => acts == none()
            && t.file_arr@ == with_files(s.file_arr@, files@)
            && t == (ShowStandard { file_arr: t.file_arr, ..s }),
        Msg::GetStandardData(Ok(d)) => acts == none()
            && t.file_arr@ == s.file_arr@.push(d.image_file)
            && t == (ShowStandard {
                subscribers: d.subscribers,
                is_followed: d.is_followed,
                current_standard_uuid: d.uuid,
                current_user_owner: match logged_user {
                    Some(u) => d.owner_uuid@ == u@,
                    None => s.current_user_owner,
                },
                show_full_description: byte_len(d.description@) < 250,
                file_arr: t.file_arr,
                standard: Some(d),
                ..s
            }),
        Msg::ShowDescription => t == (ShowStandard { show_full_description: !s.show_full_description, ..s })
            && acts == none(),
        Msg::ShowComponentsList => t == (ShowStandard { show_related_components: !s.show_related_components, ..s })
            && acts == none(),
        Msg::ShowCompanyCard => t == (ShowStandard { show_owner_company: !s.show_owner_company, ..s })
            && acts == none(),
        Msg::OpenStandardSetting => t == s && acts == (match s.standard {
            Some(d) => seq![Action::Route(AppRoute::StandardSettings(d.uuid))],
            None => none(),
        }),
        Msg::ResponseError(e) => t == (ShowStandard { error: Some(e), ..s }) && acts == none(),
        Msg::ClearError => t == (ShowStandard { error: None, ..s }) && acts == none(),
        Msg::Ignore => t == s && acts == none(),
    }
}

/// What showing the page does: a visitor who is not signed in is sent to
/// the login page (which is to lead back here), the window title is the
/// loaded standard's name, and the standard named by the route fragment is
/// loaded with its files when the page first shows or the fragment names
/// another standard.
pub open spec fn rendered(
    s: ShowStandard,
    first_render: bool,
    logged_in: bool,
    fragment: Seq<char>,
    t: ShowStandard,
    acts: Seq<Action>,
) -> bool {
    let target = strip_leading(fragment, page_prefix());
    let changed = target != s.current_standard_uuid@;
    let login = if logged_in {
        none()
    } else {
        seq![Action::Query(ShowStandardRequest::SetHistoryBack), Action::Route(AppRoute::Login)]
    };
    let title = match s.standard {
        Some(d) => seq![Action::Query(ShowStandardRequest::SetTitle(d.name))],
        None => none(),
    };
    if first_render || changed {
        &&& t.current_standard_uuid@ == target
        &&& t == (ShowStandard { current_standard_uuid: t.current_standard_uuid, ..s })
        &&& acts.len() == login.len() + title.len() + 2
        &&& acts.subrange(0, (login.len() + title.len()) as int) == login + title
        &&& acts[acts.len() - 2] == Action::Send(Msg::RequestDownloadFiles)
        &&& acts[acts.len() - 1] matches Action::Query(ShowStandardRequest::Load { standard_uuid: a })
        &&& a@ == target
    } else {
        t == s && acts == login + title
    }
}

/// What the card shows of a description: a short one (under 250 bytes)
/// whole and without a toggle; a long one whole once opened out, else its
/// first 200 characters, with a "see more" toggle either way.
pub open spec fn description_view_of(show_full: bool, d: Seq<char>) -> (Seq<char>, bool) {
    if byte_len(d) < 250 {
        (d, false)
    } else if show_full {
        (d, true)
    } else {
        (first_chars(d, 200), true)
    }
}

/// Bookmark law: a click on "follow" asks for exactly one request, to
/// follow the loaded standard; a click on "unfollow" asks for exactly one, to
/// stop following it.
pub proof fn lemma_follow_clicks_ask_the_server(
    s: ShowStandard,
    logged_user: Option<String>, t: ShowStandard,
    a1: Seq<Action>,
    u: ShowStandard,
    a2: Seq<Action>,
)
    requires
        next(s, Msg::Follow, logged_user, t, a1),
        next(s, Msg::UnFollow, logged_user, u, a2),
    ensures
        a1.len() == 1,
        a1[0] matches Action::Query(ShowStandardRequest::AddFav { standard_uuid: x }) && x == s.standard.unwrap().uuid,
        a2.len() == 1,
        a2[0] matches Action::Query(ShowStandardRequest::DeleteFav { standard_uuid: y }) && y == s.standard.unwrap().uuid,
        t == s && u == s,
{
}

/// Bookmark law: of all messages, only "follow" asks the server to follow,
/// and only "unfollow" asks it to stop following.
pub proof fn lemma_bookmark_requests_come_from_clicks(
    s: ShowStandard,
    m: Msg,
    logged_user: Option<String>, t: ShowStandard,
    acts: Seq<Action>,
    i: int,
)
    requires
        next(s, m, logged_user, t, acts),
        0 <= i < acts.len(),
    ensures
        acts[i] matches Action::Query(ShowStandardRequest::AddFav { .. }) ==> m is Follow,
        acts[i] matches Action::Query(ShowStandardRequest::DeleteFav { .. }) ==> m is UnFollow,
{
}

/// Follow law: a confirmed follow and then a confirmed unfollow leave the
/// count of followers where it was, with the standard not followed.
pub proof fn lemma_follow_then_unfollow(
    s: ShowStandard,
    logged_user: Option<String>,
    t: ShowStandard,
    a1: Seq<Action>,
    u: ShowStandard,
    a2: Seq<Action>,
)
    requires
        accepts(s, Msg::AddFollow(Ok(true))),
        next(s, Msg::AddFollow(Ok(true)), logged_user, t, a1),
        next(t, Msg::DelFollow(Ok(true)), logged_user, u, a2),
    ensures
        accepts(t, Msg::DelFollow(Ok(true))),
        u == (ShowStandard { is_followed: false, ..s }),
        a1.len() == 0 && a2.len() == 0,
{
}

/// Image law: once the standard's files arrive, the main image shown until
/// then stays in the list, after the files; nothing is lost or added.
pub proof fn lemma_main_image_kept(shown: Seq<DownloadFile>, files: Seq<DownloadFile>)
    requires
        shown.len() > 0,
    ensures
        with_files(shown, files).contains(shown[0]),
        files.len() > 0 ==> with_files(shown, files).len() == files.len() + 1,
{
    if files.len() > 0 {
        assert(with_files(shown, files)[files.len() as int] == shown[0]);
    } else {
        assert(with_files(shown, files)[0] == shown[0]);
    }
}

impl ShowStandard {
    /// The page as first created for the standard `standard_uuid`.
    pub fn new(standard_uuid: String) -> (s: Self)
        ensures
            s.props_standard_uuid == standard_uuid,
            s.error.is_none(),
            s.standard.is_none(),
            s.current_standard_uuid@.len() == 0,
            !s.current_user_owner,
            s.subscribers == 0,
            !s.is_followed,
            !s.show_full_description,
            !s.show_related_components,
            !s.show_owner_company,
            s.file_arr@.len() == 0,
    {
        ShowStandard {
            props_standard_uuid: standard_uuid,
            error: None,
            standard: None,
            current_standard_uuid: String::new(),
            current_user_owner: false,
            subscribers: 0,
            is_followed: false,
            show_full_description: false,
            show_related_components: false,
            show_owner_company: false,
            file_arr: Vec::new(),
        }
    }

    /// What the card shows of `description`; see `description_view_of`.
    pub fn description_view(&self, description: &String) -> (r: (String, bool))
        ensures
            (r.0@, r.1) == description_view_of(self.show_full_description, description@),
    {
        if description.as_str().len() < 250 {
            (description.clone(), false)
        } else if self.show_full_description {
            (description.clone(), true)
        } else {
            (first_chars_of(description.as_str(), 200), true)
        }
    }

    /// The number of followers shown on the page.
    pub fn quantity(&self) -> (n: usize)
        ensures
            n == self.subscribers,
    {
        self.subscribers
    }

    /// Takes the standard uuid given to the page; the page is drawn again
    /// only when it changed.
    pub fn change(&mut self, standard_uuid: String) -> (redraw: bool)
        ensures
            redraw == (standard_uuid@ != old(self).props_standard_uuid@),
            redraw ==> *final(self) == (ShowStandard { props_standard_uuid: standard_uuid, ..*old(self) }),
            !redraw ==> *final(self) == *old(self),
    {
        if same_text(self.props_standard_uuid.as_str(), standard_uuid.as_str()) {
            false
        } else {
            self.props_standard_uuid = standard_uuid;
            true
        }
    }

    /// Handles the showing of the page; see `rendered`.
    pub fn on_render(&mut self, first_render: bool, logged_in: bool, fragment: &str) -> (acts: Vec<Action>)
        ensures
            rendered(*old(self), first_render, logged_in, fragment@, *final(self), acts@),
    {
        let ghost s = *self;
        let mut acts: Vec<Action> = Vec::new();
        if !logged_in {
            acts.push(Action::Query(ShowStandardRequest::SetHistoryBack));
            acts.push(Action::Route(AppRoute::Login));
        }
        match &self.standard {
            Some(d) => {
                acts.push(Action::Query(ShowStandardRequest::SetTitle(d.name.clone())));
            },
            None => {},
        }
        let ghost head = acts@;
        proof {
            let login = if logged_in {
                none()
            } else {
                seq![Action::Query(ShowStandardRequest::SetHistoryBack), Action::Route(AppRoute::Login)]
            };
            let title = match s.standard {
                Some(d) => seq![Action::Query(ShowStandardRequest::SetTitle(d.name))],
                None => none(),
            };
            assert(head =~= login + title);
        }
        let target = route_target(fragment, "#/standard/");
        let changed = !same_text(target.as_str(), self.current_standard_uuid.as_str());
        if first_render || changed {
            self.current_standard_uuid = target.clone();
            acts.push(Action::Send(Msg::RequestDownloadFiles));
            acts.push(Action::Query(ShowStandardRequest::Load { standard_uuid: target }));
            assert(acts@.subrange(0, head.len() as int) == head);
        }
        acts
    }

    /// Handles one message, with the signed-in user by uuid; see `next`.
    /// The page is drawn again after each.
    #[verifier::rlimit(80)]
    #[verifier::spinoff_prover]
    pub fn update(&mut self, msg: Msg, logged_user: Option<String>) -> (acts: Vec<Action>)
        requires
            accepts(*old(self), msg),
        ensures
            next(*old(self), msg, logged_user, *final(self), acts@),
    {
        let mut acts: Vec<Action> = Vec::new();
        match msg {
            Msg::RequestDownloadFiles => {
                acts.push(Action::Query(ShowStandardRequest::Files { standard_uuid: self.props_standard_uuid.clone() }));
            },
            Msg::Follow => {
                let standard_uuid = match &self.standard {
                    Some(d) => d.uuid.clone(),
                    None => String::new(),
                };
                acts.push(Action::Query(ShowStandardRequest::AddFav { standard_uuid }));
            },
            Msg::UnFollow => {
                let standard_uuid = match &self.standard {
                    Some(d) => d.uuid.clone(),
                    None => String::new(),
                };
                acts.push(Action::Query(ShowStandardRequest::DeleteFav { standard_uuid }));
            },
            Msg::AddFollow(res) => match res {
                Ok(done) => {
                    if done {
                        self.subscribers = self.subscribers + 1;
                        self.is_followed = true;
                    }
                },
                Err(e) => {
                    acts.push(Action::Send(Msg::ResponseError(e)));
                },
            },
            Msg::DelFollow(res) => match res {
                Ok(done) => {
                    if done {
                        self.subscribers = self.subscribers - 1;
                        self.is_followed = false;
                    }
                },
                Err(e) => {
                    acts.push(Action::Send(Msg::ResponseError(e)));
                },
            },
            Msg::GetDownloadFilesResult(res) => match res {
                Ok(files) => {
                    if files.len() > 0 {
                        let mut files = files;
                        if self.file_arr.len() > 0 {
                            files.push(self.file_arr[0].duplicate());
                        }
                        self.file_arr = files;
                    }
                },
                Err(e) => {
                    acts.push(Action::Send(Msg::ResponseError(e)));
                },
            },
            Msg::GetStandardData(res) => match res {
                Ok(d) => {
                    self.subscribers = d.subscribers;
                    self.is_followed = d.is_followed;
                    self.current_standard_uuid = d.uuid.clone();
                    match &logged_user {
                        Some(u) => {
                            self.current_user_owner = same_text(d.owner_uuid.as_str(), u.as_str());
                        },
                        None => {},
                    }
                    self.show_full_description = d.description.as_str().len() < 250;
                    self.file_arr.push(d.image_file.duplicate());
                    self.standard = Some(d);
                },
                Err(e) => {
                    acts.push(Action::Send(Msg::ResponseError(e)));
                },
            },
            Msg::ShowDescription => {
                self.show_full_description = !self.show_full_description;
            },
            Msg::ShowComponentsList => {
                self.show_related_components = !self.show_related_components;
            },
            Msg::ShowCompanyCard => {
                self.show_owner_company = !self.show_owner_company;
            },
            Msg::OpenStandardSetting => {
                match &self.standard {
                    Some(d) => {
                        acts.push(Action::Route(AppRoute::StandardSettings(d.uuid.clone())));
                    },
                    None => {},
                }
            },
            Msg::ResponseError(e) => {
                self.error = Some(e);
            },
            Msg::ClearError => {
                self.error = None;
            },
            Msg::Ignore => {},
        }
        acts
    }
}

} // verus!
