//! The page that shows a component: its data, files and followers.

use vstd::prelude::*;
use crate::common::{DownloadFile, byte_len, first_chars, first_chars_of};
use crate::route::{AppRoute, route_target, strip_leading, same_text};

verus! {

/// The tabs of the component card.
#[derive(PartialEq, Eq, Structural, Clone, Copy)]
pub enum ActiveTab {
    Description,
    Characteristics,
    ComponentFiles,
}

/// A component as the page reads it.
pub struct ComponentData {
    pub uuid: String,
    pub name: String,
    pub description: String,
    /// The uuid of the user who owns the component.
    pub owner_uuid: String,
    pub subscribers: usize,
    pub is_followed: bool,
    pub image_file: DownloadFile,
}

/// The query for the files of a component: the component, and which of
/// its files (`None`: all).
pub struct ComponentFiles {
    pub component_uuid: String,
    pub files_uuids: Option<Vec<String>>,
}

/// A request to the server or to the browser.
pub enum ShowComponentRequest {
    /// The component's data.
    Load { component_uuid: String },
    /// The files of the component.
    Files(ComponentFiles),
    AddFav { component_uuid: String },
    DeleteFav { component_uuid: String },
    /// Remember that the login page should lead back here.
    SetHistoryBack,
    /// Show the text as the window's title.
    SetTitle(String),
}

/// What the page reacts to; replies arrive decoded, `Err` holding the
/// message of a failed reply.
pub enum Msg {
    SelectFileset(String),
    SelectModification(String),
    Follow,
    AddFollow(Result<bool, String>),
    UnFollow,
    DelFollow(Result<bool, String>),
    ResponseError(String),
    GetComponentData(Result<ComponentData, String>),
    ShowDescription,
    ShowStandardsList,
    ShowFilesetFilesBlock(bool),
    OpenDiscussionBlock,
    OpenComponentSetting,
    GetDownloadFileResult(Result<Vec<DownloadFile>, String>),
    Show3D,
    ChangeActiveTab(ActiveTab),
    ClearError,
    Ignore,
}

/// What a transition asks for.
pub enum Action {
    Query(ShowComponentRequest),
    Route(AppRoute),
    Send(Msg),
}

/// The state of the page.
pub struct ShowComponent {
    /// The uuid that the page was given.
    pub props_component_uuid: String,
    pub error: Option<String>,
    pub component: Option<ComponentData>,
    pub current_component_uuid: String,
    pub current_user_owner: bool,
    pub subscribers: usize,
    pub is_followed: bool,
    pub select_modification_uuid: String,
    /// The filesets of each modification, by modification uuid.
    pub modification_filesets: Vec<(String, Vec<(String, String)>)>,
    pub select_fileset_uuid: String,
    pub current_filesets_program: Vec<(String, String)>,
    pub show_full_description: bool,
    pub open_fileset_files_card: bool,
    pub open_discussion_card: bool,
    pub show_related_standards: bool,
    /// The main image first, then the files of the component.
    pub file_arr: Vec<DownloadFile>,
    pub show_three_view: bool,
    pub active_tab: ActiveTab,
}

/// No action.
pub open spec fn none() -> Seq<Action> {
    Seq::<Action>::empty()
}

/// The prefix of the page's route.
pub open spec fn page_prefix() -> Seq<char> {
    "#/component/"@
}

/// A description shorter than 250 bytes is shown whole at once.
pub open spec fn short_description(d: Seq<char>) -> bool {
    byte_len(d) < 250
}

/// The messages that the page cannot take in state `s` (it would fail):
/// following or unfollowing before the component is loaded, and a counter
/// that would leave the range of `usize`.
pub open spec fn accepts(s: ShowComponent, m: Msg) -> bool {
    &&& (m is Follow || m is UnFollow) ==> s.component.is_some()
    &&& m == Msg::AddFollow(Ok(true)) ==> s.subscribers < usize::MAX
    &&& m == Msg::DelFollow(Ok(true)) ==> s.subscribers > 0
}

/// The transition of the page: from `s`, message `m` (with the signed-in
/// user `logged_user`, by uuid) leads to `t` and asks for `acts`.
pub open spec fn next(s: ShowComponent, m: Msg, logged_user: Option<String>, t: ShowComponent, acts: Seq<Action>) -> bool {
    match m {
        Msg::SelectFileset(u) => t == (ShowComponent { select_fileset_uuid: u, ..s }) && acts == none(),
        Msg::SelectModification(u) => t == (ShowComponent { select_modification_uuid: u, ..s }) && acts == none(),
        Msg::Follow => t == s
            && acts == seq![Action::Query(ShowComponentRequest::AddFav { component_uuid: s.component.unwrap().uuid })],
        Msg::UnFollow => t == s
            && acts == seq![Action::Query(ShowComponentRequest::DeleteFav { component_uuid: s.component.unwrap().uuid })],
        Msg::AddFollow(Ok(done)) => acts == none()
            && t == (if done { ShowComponent { subscribers: (s.subscribers + 1) as usize, is_followed: true, ..s } } else { s }),
        Msg::DelFollow(Ok(done)) => acts == none()
            && t == (if done { ShowComponent { subscribers: (s.subscribers - 1) as usize, is_followed: false, ..s } } else { s }),
        Msg::AddFollow(Err(e)) | Msg::DelFollow(Err(e)) | Msg::GetDownloadFileResult(Err(e)) =>
            t == s && acts == seq![Action::Send(Msg::ResponseError(e))],
        Msg::ResponseError(e) => t == (ShowComponent { error: Some(e), ..s }) && acts == none(),
        Msg::GetComponentData(Ok(d)) => acts == none()
            && t.file_arr@ == s.file_arr@.push(d.image_file)
            && t == (ShowComponent {
                subscribers: d.subscribers,
                is_followed: d.is_followed,
                current_component_uuid: d.uuid,
                current_user_owner: match logged_user {
                    Some(u) => d.owner_uuid@ == u@,
                    None => s.current_user_owner,
                },
                show_full_description: short_description(d.description@),
                file_arr: t.file_arr,
                component: Some(d),
                ..s
            }),
        Msg::GetComponentData(Err(e)) => t == s
            && acts == (if logged_user.is_none() {
                seq![
                    Action::Send(Msg::ResponseError(e)),
                    Action::Query(ShowComponentRequest::SetHistoryBack),
                    Action::Route(AppRoute::Login),
                ]
            } else {
                seq![Action::Send(Msg::ResponseError(e))]
            }),
        Msg::GetDownloadFileResult(Ok(files)) => acts == none()
            && t.file_arr@ == s.file_arr@ + files@
            && t == (ShowComponent { file_arr: t.file_arr, ..s }),
        Msg::ShowDescription => t == (ShowComponent { show_full_description: !s.show_full_description, ..s })
            && acts == none(),
        Msg::ShowStandardsList => t == (ShowComponent { show_related_standards: !s.show_related_standards, ..s })
            && acts == none(),
        Msg::ShowFilesetFilesBlock(v) => t == (ShowComponent { open_fileset_files_card: v, ..s }) && acts == none(),
        Msg::OpenDiscussionBlock => t == (ShowComponent { open_discussion_card: !s.open_discussion_card, ..s })
            && acts == none(),
        Msg::OpenComponentSetting => t == s && acts == (match s.component {
            Some(c) => seq![Action::Route(AppRoute::ComponentSettings(c.uuid))],
            None => none(),
        }),
        Msg::Show3D => t == (ShowComponent { show_three_view: !s.show_three_view, ..s }) && acts == none(),
        Msg::ChangeActiveTab(tab) => t == (ShowComponent { active_tab: tab, ..s }) && acts == none(),
        Msg::ClearError => t == (ShowComponent { error: None, ..s }) && acts == none(),
        Msg::Ignore => t == s && acts == none(),
    }
}

/// What showing the page does: a visitor's login is to lead back here, the
/// window title is the loaded component's name, and the component named by
/// the route fragment is loaded with its files when the page first shows or
/// the fragment names another component (whose old data is then dropped).
pub open spec fn rendered(
    s: ShowComponent,
    first_render: bool,
    logged_in: bool,
    fragment: Seq<char>,
    t: ShowComponent,
    acts: Seq<Action>,
) -> bool {
    let target = strip_leading(fragment, page_prefix());
    let changed = target != s.current_component_uuid@;
    let back = if logged_in { none() } else { seq![Action::Query(ShowComponentRequest::SetHistoryBack)] };
    let title = match s.component {
        Some(c) => seq![Action::Query(ShowComponentRequest::SetTitle(c.name))],
        None => none(),
    };
    if first_render || changed {
        &&& t.current_component_uuid@ == target
        &&& acts.len() == back.len() + title.len() + 2
        &&& acts.subrange(0, (back.len() + title.len()) as int) == back + title
        &&& acts[acts.len() - 2] matches Action::Query(ShowComponentRequest::Load { component_uuid: a })
        &&& a@ == target
        &&& acts[acts.len() - 1] matches Action::Query(ShowComponentRequest::Files(q))
        &&& q.component_uuid@ == target
        &&& q.files_uuids.is_none()
        &&& if changed {
            &&& t.select_modification_uuid@.len() == 0
            &&& t.modification_filesets@.len() == 0
            &&& t.select_fileset_uuid@.len() == 0
            &&& t.current_filesets_program@.len() == 0
            &&& t.file_arr@.len() == 0
            &&& t == (ShowComponent {
                error: None,
                component: None,
                current_component_uuid: t.current_component_uuid,
                current_user_owner: false,
                select_modification_uuid: t.select_modification_uuid,
                modification_filesets: t.modification_filesets,
                select_fileset_uuid: t.select_fileset_uuid,
                current_filesets_program: t.current_filesets_program,
                file_arr: t.file_arr,
                ..s
            })
        } else {
            t == (ShowComponent { error: None, component: None, current_component_uuid: t.current_component_uuid, ..s })
        }
    } else {
        t == s && acts == back + title
    }
}

/// What the description tab shows of a description: a short one (under 250
/// bytes) whole and without a toggle; a long one cut to its first 200
/// characters with a "see more" toggle, and nothing once opened out (the
/// whole text then stands in the card). The pair is the text shown, if
/// any, and whether the toggle shows.
pub open spec fn description_view_of(show_full: bool, d: Seq<char>) -> (Option<Seq<char>>, bool) {
    if short_description(d) {
        (Some(d), false)
    } else if show_full {
        (None, false)
    } else {
        (Some(first_chars(d, 200)), true)
    }
}

/// Visitor law: component pages can be browsed without signing in: showing
/// the page never sends a visitor to the login page (it only remembers to
/// come back here after a login).
pub proof fn lemma_visitor_browses_component(
    s: ShowComponent,
    first_render: bool,
    logged_in: bool,
    fragment: Seq<char>,
    t: ShowComponent,
    acts: Seq<Action>,
)
    requires
        rendered(s, first_render, logged_in, fragment, t, acts),
    ensures
        forall|i: int| 0 <= i < acts.len() ==> !(#[trigger] acts[i] matches Action::Route(_)),
{
    let target = strip_leading(fragment, page_prefix());
    let back = if logged_in { none() } else { seq![Action::Query(ShowComponentRequest::SetHistoryBack)] };
    let title = match s.component {
        Some(c) => seq![Action::Query(ShowComponentRequest::SetTitle(c.name))],
        None => none(),
    };
    assert forall|i: int| 0 <= i < acts.len() implies !(#[trigger] acts[i] matches Action::Route(_)) by {
        if i < back.len() + title.len() {
            if first_render || target != s.current_component_uuid@ {
                assert(acts[i] == acts.subrange(0, (back.len() + title.len()) as int)[i]);
            }
            assert(acts[i] == (back + title)[i]);
        }
    }
}

/// Bookmark law: a click on "follow" asks for exactly one request, to
/// follow the loaded component; a click on "unfollow" asks for exactly one, to
/// stop following it.
pub proof fn lemma_follow_clicks_ask_the_server(
    s: ShowComponent,
    logged_user: Option<String>, t: ShowComponent,
    a1: Seq<Action>,
    u: ShowComponent,
    a2: Seq<Action>,
)
    requires
        next(s, Msg::Follow, logged_user, t, a1),
        next(s, Msg::UnFollow, logged_user, u, a2),
    ensures
        a1.len() == 1,
        a1[0] matches Action::Query(ShowComponentRequest::AddFav { component_uuid: x }) && x == s.component.unwrap().uuid,
        a2.len() == 1,
        a2[0] matches Action::Query(ShowComponentRequest::DeleteFav { component_uuid: y }) && y == s.component.unwrap().uuid,
        t == s && u == s,
{
}

/// Bookmark law: of all messages, only "follow" asks the server to follow,
/// and only "unfollow" asks it to stop following.
pub proof fn lemma_bookmark_requests_come_from_clicks(
    s: ShowComponent,
    m: Msg,
    logged_user: Option<String>, t: ShowComponent,
    acts: Seq<Action>,
    i: int,
)
    requires
        next(s, m, logged_user, t, acts),
        0 <= i < acts.len(),
    ensures
        acts[i] matches Action::Query(ShowComponentRequest::AddFav { .. }) ==> m is Follow,
        acts[i] matches Action::Query(ShowComponentRequest::DeleteFav { .. }) ==> m is UnFollow,
{
}

/// Follow law: a confirmed follow and then a confirmed unfollow leave the
/// count of followers where it was, with the component not followed.
pub proof fn lemma_follow_then_unfollow(
    s: ShowComponent,
    logged_user: Option<String>,
    t: ShowComponent,
    a1: Seq<Action>,
    u: ShowComponent,
    a2: Seq<Action>,
)
    requires
        accepts(s, Msg::AddFollow(Ok(true))),
        next(s, Msg::AddFollow(Ok(true)), logged_user, t, a1),
        next(t, Msg::DelFollow(Ok(true)), logged_user, u, a2),
    ensures
        accepts(t, Msg::DelFollow(Ok(true))),
        u == (ShowComponent { is_followed: false, ..s }),
        a1.len() == 0 && a2.len() == 0,
{
}

/// File law: the files already listed (the main image first) stay first,
/// in their order, when the component's files arrive.
pub proof fn lemma_listed_files_stay_first(
    s: ShowComponent,
    files: Vec<DownloadFile>,
    logged_user: Option<String>,
    t: ShowComponent,
    acts: Seq<Action>,
)
    requires
        next(s, Msg::GetDownloadFileResult(Ok(files)), logged_user, t, acts),
    ensures
        t.file_arr@.len() == s.file_arr@.len() + files@.len(),
        t.file_arr@.subrange(0, s.file_arr@.len() as int) == s.file_arr@,
        t.file_arr@.subrange(s.file_arr@.len() as int, t.file_arr@.len() as int) == files@,
{
    assert(t.file_arr@.subrange(0, s.file_arr@.len() as int) =~= s.file_arr@);
    assert(t.file_arr@.subrange(s.file_arr@.len() as int, t.file_arr@.len() as int) =~= files@);
}

impl ShowComponent {
    /// The page as first created for the component `component_uuid`.
    pub fn new(component_uuid: String) -> (s: Self)
        ensures
            s.props_component_uuid == component_uuid,
            s.error.is_none(),
            s.component.is_none(),
            s.current_component_uuid@.len() == 0,
            !s.current_user_owner,
            s.subscribers == 0,
            !s.is_followed,
            s.select_modification_uuid@.len() == 0,
            s.modification_filesets@.len() == 0,
            s.select_fileset_uuid@.len() == 0,
            s.current_filesets_program@.len() == 0,
            !s.show_full_description,
            !s.open_fileset_files_card,
            !s.open_discussion_card,
            !s.show_related_standards,
            s.file_arr@.len() == 0,
            !s.show_three_view,
            s.active_tab == ActiveTab::Description,
    {
        ShowComponent {
            props_component_uuid: component_uuid,
            error: None,
            component: None,
            current_component_uuid: String::new(),
            current_user_owner: false,
            subscribers: 0,
            is_followed: false,
            select_modification_uuid: String::new(),
            modification_filesets: Vec::new(),
            select_fileset_uuid: String::new(),
            current_filesets_program: Vec::new(),
            show_full_description: false,
            open_fileset_files_card: false,
            open_discussion_card: false,
            show_related_standards: false,
            file_arr: Vec::new(),
            show_three_view: false,
            active_tab: ActiveTab::Description,
        }
    }

    /// What the description tab shows of `description`; see
    /// `description_view_of`.
    pub fn description_view(&self, description: &String) -> (r: (Option<String>, bool))
        ensures
            (match r.0 {
                Some(t) => Some(t@),
                None => None,
            }, r.1) == description_view_of(self.show_full_description, description@),
    {
        if description.as_str().len() < 250 {
            (Some(description.clone()), false)
        } else if self.show_full_description {
            (None, false)
        } else {
            (Some(first_chars_of(description.as_str(), 200)), true)
        }
    }

    /// The number of followers shown on the page.
    pub fn quantity(&self) -> (n: usize)
        ensures
            n == self.subscribers,
    {
        self.subscribers
    }

    /// Takes the component uuid given to the page; the page is drawn again
    /// only when it changed.
    pub fn change(&mut self, component_uuid: String) -> (redraw: bool)
        ensures
            redraw == (component_uuid@ != old(self).props_component_uuid@),
            redraw ==> *final(self) == (ShowComponent { props_component_uuid: component_uuid, ..*old(self) }),
            !redraw ==> *final(self) == *old(self),
    {
        if same_text(self.props_component_uuid.as_str(), component_uuid.as_str()) {
            false
        } else {
            self.props_component_uuid = component_uuid;
            true
        }
    }

    /// Handles the showing of the page; see `rendered`.
    pub fn on_render(&mut self, first_render: bool, logged_in: bool, fragment: &str) -> (acts: Vec<Action>)
        ensures
            rendered(*old(self), first_render, logged_in, fragment@, *final(self), acts@),
    {
        let ghost s = *self;
        let mut acts: Vec<Action> = Vec::new();
        if !logged_in {
            acts.push(Action::Query(ShowComponentRequest::SetHistoryBack));
        }
        match &self.component {
            Some(c) => {
                acts.push(Action::Query(ShowComponentRequest::SetTitle(c.name.clone())));
            },
            None => {},
        }
        let ghost head = acts@;
        proof {
            let back = if logged_in { none() } else { seq![Action::Query(ShowComponentRequest::SetHistoryBack)] };
            let title = match s.component {
                Some(c) => seq![Action::Query(ShowComponentRequest::SetTitle(c.name))],
                None => none(),
            };
            assert(head =~= back + title);
        }
        let target = route_target(fragment, "#/component/");
        let changed = !same_text(target.as_str(), self.current_component_uuid.as_str());
        if first_render || changed {
            self.error = None;
            self.component = None;
            self.current_component_uuid = target.clone();
            if changed {
                self.current_user_owner = false;
                self.select_modification_uuid = String::new();
                self.modification_filesets = Vec::new();
                self.select_fileset_uuid = String::new();
                self.current_filesets_program.clear();
                self.file_arr.clear();
            }
            acts.push(Action::Query(ShowComponentRequest::Load { component_uuid: target.clone() }));
            acts.push(Action::Query(ShowComponentRequest::Files(ComponentFiles { component_uuid: target, files_uuids: None })));
            assert(acts@.subrange(0, head.len() as int) == head);
        }
        acts
    }

    /// Handles one message, with the signed-in user by uuid; see `next`.
    /// The page is drawn again after each.
    #[verifier::rlimit(80)]
    #[verifier::spinoff_prover]
    pub fn update(&mut self, msg: Msg, logged_user: Option<String>) -> (acts: Vec<Action>)
        requires
            accepts(*old(self), msg),
        ensures
            next(*old(self), msg, logged_user, *final(self), acts@),
    {
        let mut acts: Vec<Action> = Vec::new();
        match msg {
            Msg::SelectFileset(u) => {
                self.select_fileset_uuid = u;
            },
            Msg::SelectModification(u) => {
                self.select_modification_uuid = u;
            },
            Msg::Follow => {
                let component_uuid = match &self.component {
                    Some(c) => c.uuid.clone(),
                    None => String::new(),
                };
                acts.push(Action::Query(ShowComponentRequest::AddFav { component_uuid }));
            },
            Msg::UnFollow => {
                let component_uuid = match &self.component {
                    Some(c) => c.uuid.clone(),
                    None => String::new(),
                };
                acts.push(Action::Query(ShowComponentRequest::DeleteFav { component_uuid }));
            },
            Msg::AddFollow(res) => match res {
                Ok(done) => {
                    if done {
                        self.subscribers = self.subscribers + 1;
                        self.is_followed = true;
                    }
                },
                Err(e) => {
                    acts.push(Action::Send(Msg::ResponseError(e)));
                },
            },
            Msg::DelFollow(res) => match res {
                Ok(done) => {
                    if done {
                        self.subscribers = self.subscribers - 1;
                        self.is_followed = false;
                    }
                },
                Err(e) => {
                    acts.push(Action::Send(Msg::ResponseError(e)));
                },
            },
            Msg::ResponseError(e) => {
                self.error = Some(e);
            },
            Msg::GetComponentData(res) => match res {
                Ok(d) => {
                    self.subscribers = d.subscribers;
                    self.is_followed = d.is_followed;
                    self.current_component_uuid = d.uuid.clone();
                    match &logged_user {
                        Some(u) => {
                            self.current_user_owner = same_text(d.owner_uuid.as_str(), u.as_str());
                        },
                        None => {},
                    }
                    self.show_full_description = d.description.as_str().len() < 250;
                    self.file_arr.push(d.image_file.duplicate());
                    self.component = Some(d);
                },
                Err(e) => {
                    acts.push(Action::Send(Msg::ResponseError(e)));
                    if logged_user.is_none() {
                        acts.push(Action::Query(ShowComponentRequest::SetHistoryBack));
                        acts.push(Action::Route(AppRoute::Login));
                    }
                    assert(acts@ =~= (if logged_user.is_none() {
                        seq![
                            Action::Send(Msg::ResponseError(e)),
                            Action::Query(ShowComponentRequest::SetHistoryBack),
                            Action::Route(AppRoute::Login),
                        ]
                    } else {
                        seq![Action::Send(Msg::ResponseError(e))]
                    }));
                },
            },
            Msg::GetDownloadFileResult(res) => match res {
                Ok(files) => {
                    let mut files = files;
                    self.file_arr.append(&mut files);
                },
                Err(e) => {
                    acts.push(Action::Send(Msg::ResponseError(e)));
                },
            },
            Msg::ShowDescription => {
                self.show_full_description = !self.show_full_description;
            },
            Msg::ShowStandardsList => {
                self.show_related_standards = !self.show_related_standards;
            },
            Msg::ShowFilesetFilesBlock(v) => {
                self.open_fileset_files_card = v;
            },
            Msg::OpenDiscussionBlock => {
                self.open_discussion_card = !self.open_discussion_card;
            },
            Msg::OpenComponentSetting => {
                match &self.component {
                    Some(c) => {
                        acts.push(Action::Route(AppRoute::ComponentSettings(c.uuid.clone())));
                    },
                    None => {},
                }
            },
            Msg::Show3D => {
                self.show_three_view = !self.show_three_view;
            },
            Msg::ChangeActiveTab(tab) => {
                self.active_tab = tab;
            },
            Msg::ClearError => {
                self.error = None;
            },
            Msg::Ignore => {},
        }
        acts
    }
}

} // verus!
