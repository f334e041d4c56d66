//! Users as lists show them: the catalog of users, one entry, the link to
//! a user's profile and the card that opens over the page.

use vstd::prelude::*;
use crate::catalog::{ListState, switched};
use crate::common::{DownloadFile, copy_texts};
use crate::route::{AppRoute, same_text};

verus! {

/// A user in short.
pub struct ShowUserShort {
    pub uuid: String,
    pub firstname: String,
    pub lastname: String,
    pub username: String,
    pub image_file: DownloadFile,
}

/// Which users the catalog lists; `None` puts no condition.
pub struct UsersQueryArg {
    pub users_uuids: Option<Vec<String>>,
    pub subscribers: Option<bool>,
    pub favorite: Option<bool>,
}

/// A request to the server or to the browser's storage.
pub enum UsersRequest {
    /// The users that the arguments select (all, without arguments).
    Users(Option<UsersQueryArg>),
    /// Remember the layout for the next visit.
    StoreShowType(ListState),
}

/// What the catalog of users reacts to; replies arrive decoded, `Err`
/// holding the message of a failed reply.
pub enum Msg {
    SwitchShowType,
    UpdateList(Result<Vec<ShowUserShort>, String>),
    GetList,
    ResponseError(String),
    ClearError,
}

/// What a transition asks for.
pub enum Action {
    Query(UsersRequest),
    Send(Msg),
}

/// The state of the catalog of users.
pub struct CatalogUsers {
    pub arguments: Option<UsersQueryArg>,
    pub error: Option<String>,
    pub show_type: ListState,
    pub list: Vec<ShowUserShort>,
}

/// Two selections of users are the same.
pub open spec fn same_arguments(a: Option<UsersQueryArg>, b: Option<UsersQueryArg>) -> bool {
    match (a, b) {
        (None, None) => true,
        (Some(x), Some(y)) => x.subscribers == y.subscribers && x.favorite == y.favorite && match (x.users_uuids, y.users_uuids) {
            (None, None) => true,
            (Some(u), Some(v)) => u@ == v@,
            _ => false,
        },
        _ => false,
    }
}

/// A copy of the selection.
pub fn copy_arguments(a: &Option<UsersQueryArg>) -> (r: Option<UsersQueryArg>)
    ensures
        same_arguments(r, *a),
{
    match a {
        Some(arg) => Some(UsersQueryArg {
            users_uuids: match &arg.users_uuids {
                Some(v) => Some(copy_texts(v)),
                None => None,
            },
            subscribers: arg.subscribers,
            favorite: arg.favorite,
        }),
        None => None,
    }
}

/// The transition of the catalog: from `s`, message `m` leads to `t` and
/// asks for `acts`.
pub open spec fn next(s: CatalogUsers, m: Msg, t: CatalogUsers, acts: Seq<Action>) -> bool {
    match m {
        Msg::SwitchShowType => t == (CatalogUsers { show_type: switched(s.show_type), ..s })
            && acts == seq![Action::Query(UsersRequest::StoreShowType(switched(s.show_type)))],
        Msg::GetList => t == s && acts.len() == 1
            && (acts[0] matches Action::Query(UsersRequest::Users(a)) && same_arguments(a, s.arguments)),
        Msg::UpdateList(Ok(list)) => t == (CatalogUsers { list, ..s }) && acts.len() == 0,
        Msg::UpdateList(Err(e)) => t == s && acts == seq![Action::Send(Msg::ResponseError(e))],
        Msg::ResponseError(e) => t == (CatalogUsers { error: Some(e), ..s }) && acts.len() == 0,
        Msg::ClearError => t == (CatalogUsers { error: None, ..s }) && acts.len() == 0,
    }
}

/// Layout law: the layout chosen is the one remembered for the next visit.
pub proof fn lemma_layout_remembered(s: CatalogUsers, t: CatalogUsers, acts: Seq<Action>)
    requires
        next(s, Msg::SwitchShowType, t, acts),
    ensures
        t.show_type != s.show_type,
        acts == seq![Action::Query(UsersRequest::StoreShowType(t.show_type))],
{
}

impl CatalogUsers {
    /// The catalog as first created, in the layout remembered from the last
    /// visit.
    pub fn new(arguments: Option<UsersQueryArg>, stored_show_type: ListState) -> (s: Self)
        ensures
            s.arguments == arguments,
            s.error.is_none(),
            s.show_type == stored_show_type,
            s.list@.len() == 0,
    {
        CatalogUsers { arguments, error: None, show_type: stored_show_type, list: Vec::new() }
    }

    /// What showing the catalog asks for: the list, on the first showing.
    pub fn on_render(&self, first_render: bool) -> (acts: Vec<Action>)
        ensures
            acts@ == (if first_render { seq![Action::Send(Msg::GetList)] } else { Seq::<Action>::empty() }),
    {
        let mut acts: Vec<Action> = Vec::new();
        if first_render {
            acts.push(Action::Send(Msg::GetList));
        }
        acts
    }

    /// Handles one message; see `next`. The catalog is drawn again after each.
    pub fn update(&mut self, msg: Msg) -> (acts: Vec<Action>)
        ensures
            next(*old(self), msg, *final(self), acts@),
    {
        let mut acts: Vec<Action> = Vec::new();
        match msg {
            Msg::SwitchShowType => {
                self.show_type = match self.show_type {
                    ListState::Box => ListState::List,
                    ListState::List => ListState::Box,
                };
                acts.push(Action::Query(UsersRequest::StoreShowType(self.show_type)));
            },
            Msg::GetList => {
                acts.push(Action::Query(UsersRequest::Users(copy_arguments(&self.arguments))));
            },
            Msg::UpdateList(res) => match res {
                Ok(list) => {
                    self.list = list;
                },
                Err(e) => {
                    acts.push(Action::Send(Msg::ResponseError(e)));
                },
            },
            Msg::ResponseError(e) => {
                self.error = Some(e);
            },
            Msg::ClearError => {
                self.error = None;
            },
        }
        acts
    }
}

/// One user of a list, in the list's layout.
pub struct ListItemUser {
    pub data_uuid: String,
    pub username: String,
    pub show_list: bool,
}

impl ListItemUser {
    /// The entry of the user `data`.
    pub fn new(data: &ShowUserShort, show_list: bool) -> (s: Self)
        ensures
            s.data_uuid == data.uuid && s.username == data.username && s.show_list == show_list,
    {
        ListItemUser { data_uuid: data.uuid.clone(), username: data.username.clone(), show_list }
    }

    /// Opening the user's profile.
    pub fn show_profile(&self) -> (r: AppRoute)
        ensures
            r == AppRoute::Profile(self.username),
    {
        AppRoute::Profile(self.username.clone())
    }

    /// Takes the user and layout given; the entry is drawn again only when
    /// the layout or the user (by uuid) changed.
    pub fn change(&mut self, data: &ShowUserShort, show_list: bool) -> (redraw: bool)
        ensures
            redraw == (show_list != old(self).show_list || data.uuid@ != old(self).data_uuid@),
            redraw ==> *final(self) == (ListItemUser { data_uuid: data.uuid, username: data.username, show_list }),
            !redraw ==> *final(self) == *old(self),
    {
        if self.show_list != show_list || !same_text(self.data_uuid.as_str(), data.uuid.as_str()) {
            self.show_list = show_list;
            self.username = data.username.clone();
            self.data_uuid = data.uuid.clone();
            true
        } else {
            false
        }
    }
}

/// The link to a user's profile.
pub struct GoToUser {
    pub data_uuid: String,
    pub username: String,
}

impl GoToUser {
    /// The link to the user `data`.
    pub fn new(data: &ShowUserShort) -> (s: Self)
        ensures
            s.data_uuid == data.uuid && s.username == data.username,
    {
        GoToUser { data_uuid: data.uuid.clone(), username: data.username.clone() }
    }

    /// Following the link opens the user's profile.
    pub fn show_owner_user_card(&self) -> (r: AppRoute)
        ensures
            r == AppRoute::Profile(self.username),
    {
        AppRoute::Profile(self.username.clone())
    }

    /// Takes the user given; the link is drawn again only for another user.
    pub fn change(&mut self, data: &ShowUserShort) -> (redraw: bool)
        ensures
            redraw == (data.uuid@ != old(self).data_uuid@),
            redraw ==> *final(self) == (GoToUser { data_uuid: data.uuid, username: data.username }),
            !redraw ==> *final(self) == *old(self),
    {
        if same_text(self.data_uuid.as_str(), data.uuid.as_str()) {
            false
        } else {
            self.data_uuid = data.uuid.clone();
            self.username = data.username.clone();
            true
        }
    }
}

/// A user's name that opens the user's card over the page.
pub struct ModalCardUser {
    pub open_owner_user_info: bool,
}

impl ModalCardUser {
    /// The name, with its card closed.
    pub fn new() -> (s: Self)
        ensures
            !s.open_owner_user_info,
    {
        ModalCardUser { open_owner_user_info: false }
    }

    /// Opens the card, or closes it; it is drawn again.
    pub fn show_owner_user_card(&mut self) -> (redraw: bool)
        ensures
            final(self).open_owner_user_info == !old(self).open_owner_user_info,
            redraw,
    {
        self.open_owner_user_info = !self.open_owner_user_info;
        true
    }
}

} // verus!
