//! The settings page of the signed-in user: profile data and password.

use vstd::prelude::*;
use crate::common::{NamedId, i64_or_zero, decimal_i64};
use crate::route::AppRoute;

verus! {

/// The signed-in user's own data as the page reads it.
pub struct SelfUserInfo {
    pub firstname: String,
    pub lastname: String,
    pub secondname: String,
    pub username: String,
    pub email: String,
    pub description: String,
    pub position: String,
    pub phone: String,
    pub address: String,
    pub region_id: usize,
    pub program_id: usize,
    /// When the data last changed, as the server writes it.
    pub updated_at: String,
}

/// The edited profile, sent when it is saved; `None` leaves a field as it is.
pub struct UserUpdateInfo {
    pub firstname: Option<String>,
    pub lastname: Option<String>,
    pub secondname: Option<String>,
    pub username: Option<String>,
    pub email: Option<String>,
    pub description: Option<String>,
    pub position: Option<String>,
    pub phone: Option<String>,
    pub time_zone: Option<String>,
    pub address: Option<String>,
    pub region_id: Option<i64>,
    pub program_id: Option<i64>,
}

/// The old and the new password.
pub struct UpdatePasswordInfo {
    pub old_password: String,
    pub new_password: String,
}

/// The empty profile form.
pub open spec fn empty_profile(f: UserUpdateInfo) -> bool {
    &&& f.firstname.is_none() && f.lastname.is_none() && f.secondname.is_none()
    &&& f.username.is_none() && f.email.is_none() && f.description.is_none()
    &&& f.position.is_none() && f.phone.is_none() && f.time_zone.is_none()
    &&& f.address.is_none() && f.region_id.is_none() && f.program_id.is_none()
}

/// The profile form filled with the user's data: every field set but the
/// time zone.
pub open spec fn profile_of(d: SelfUserInfo) -> UserUpdateInfo {
    UserUpdateInfo {
        firstname: Some(d.firstname),
        lastname: Some(d.lastname),
        secondname: Some(d.secondname),
        username: Some(d.username),
        email: Some(d.email),
        description: Some(d.description),
        position: Some(d.position),
        phone: Some(d.phone),
        time_zone: None,
        address: Some(d.address),
        region_id: Some(d.region_id as i64),
        program_id: Some(d.program_id as i64),
    }
}

/// A copy of an optional text.
fn copy_text(t: &Option<String>) -> (r: Option<String>)
    ensures
        r == *t,
{
    match t {
        Some(v) => Some(v.clone()),
        None => None,
    }
}

impl UserUpdateInfo {
    /// The empty form.
    pub fn empty() -> (f: Self)
        ensures
            empty_profile(f),
    {
        UserUpdateInfo {
            firstname: None,
            lastname: None,
            secondname: None,
            username: None,
            email: None,
            description: None,
            position: None,
            phone: None,
            time_zone: None,
            address: None,
            region_id: None,
            program_id: None,
        }
    }

    /// The form filled with the user's data; see `profile_of`.
    pub fn from_info(d: &SelfUserInfo) -> (f: Self)
        ensures
            f == profile_of(*d),
    {
        UserUpdateInfo {
            firstname: Some(d.firstname.clone()),
            lastname: Some(d.lastname.clone()),
            secondname: Some(d.secondname.clone()),
            username: Some(d.username.clone()),
            email: Some(d.email.clone()),
            description: Some(d.description.clone()),
            position: Some(d.position.clone()),
            phone: Some(d.phone.clone()),
            time_zone: None,
            address: Some(d.address.clone()),
            region_id: Some(d.region_id as i64),
            program_id: Some(d.program_id as i64),
        }
    }

    /// A copy of the form.
    pub fn duplicate(&self) -> (f: Self)
        ensures
            f == *self,
    {
        UserUpdateInfo {
            firstname: copy_text(&self.firstname),
            lastname: copy_text(&self.lastname),
            secondname: copy_text(&self.secondname),
            username: copy_text(&self.username),
            email: copy_text(&self.email),
            description: copy_text(&self.description),
            position: copy_text(&self.position),
            phone: copy_text(&self.phone),
            time_zone: copy_text(&self.time_zone),
            address: copy_text(&self.address),
            region_id: self.region_id,
            program_id: self.program_id,
        }
    }
}

/// The parts of the settings page.
pub enum Menu {
    Profile,
    Access,
    Password,
}

/// A request to the server.
pub enum SettingsRequest {
    /// The user's data with the lists of regions and programs.
    LoadSettingData,
    /// The user's data alone.
    LoadSelfData,
    UpdateProfile(UserUpdateInfo),
    UpdatePassword(UpdatePasswordInfo),
}

/// What the page reacts to; replies arrive decoded, `Err` holding the
/// message of a failed reply.
pub enum Msg {
    SelectMenu(Menu),
    RequestUpdateProfile,
    RequestChangeAccess,
    RequestUpdatePassword,
    Response(Result<usize, String>),
    GetBoolResult(Result<bool, String>),
    GetUpdateProfileData(Result<SelfUserInfo, String>),
    GetUpdateProfileResult(Result<usize, String>),
    Ignore,
    UpdateOldPassword(String),
    UpdateNewPassword(String),
    UpdateFirstname(String),
    UpdateLastname(String),
    UpdateSecondname(String),
    UpdateUsername(String),
    UpdateEmail(String),
    UpdateDescription(String),
    UpdatePhone(String),
    UpdateAddress(String),
    UpdatePosition(String),
    UpdateTimeZone(String),
    UpdateProgramId(String),
    UpdateRegionId(String),
    /// The lists of regions and of programs.
    UpdateList(Result<(Vec<NamedId>, Vec<NamedId>), String>),
    GetCurrentData,
}

/// What a transition asks for.
pub enum Action {
    Query(SettingsRequest),
    Route(AppRoute),
    Send(Msg),
}

/// The state of the page.
pub struct Settings {
    pub error: Option<String>,
    pub request_profile: UserUpdateInfo,
    pub request_password: UpdatePasswordInfo,
    pub current_data: Option<SelfUserInfo>,
    pub programs: Vec<NamedId>,
    pub regions: Vec<NamedId>,
    pub get_result: usize,
    pub get_result_bool: bool,
    pub select_menu: Menu,
}

/// No action.
pub open spec fn none() -> Seq<Action> {
    Seq::<Action>::empty()
}

/// The profile form with one field edited.
pub open spec fn with_profile(s: Settings, f: UserUpdateInfo) -> Settings {
    Settings { request_profile: f, ..s }
}

/// The transition of the page: from `s`, message `m` leads to `t` and asks
/// for `acts`.
pub open spec fn next(s: Settings, m: Msg, t: Settings, acts: Seq<Action>) -> bool {
    let f = s.request_profile;
    match m {
        Msg::SelectMenu(menu) => t == (Settings { select_menu: menu, ..s }) && acts == none(),
        Msg::RequestUpdateProfile => t == s && acts == seq![Action::Query(SettingsRequest::UpdateProfile(f))],
        Msg::RequestChangeAccess => t == s && acts == none(),
        Msg::RequestUpdatePassword => t == s
            && acts == seq![Action::Query(SettingsRequest::UpdatePassword(s.request_password))],
        Msg::Response(Ok(_)) => t == (Settings { error: None, ..s }) && acts == seq![Action::Route(AppRoute::Home)],
        Msg::Response(Err(e)) => t == (Settings { error: Some(e), ..s }) && acts == none(),
        Msg::GetBoolResult(Ok(done)) => t == (Settings { get_result_bool: done, ..s }) && acts == none(),
        Msg::GetBoolResult(Err(e)) | Msg::GetUpdateProfileData(Err(e)) | Msg::GetUpdateProfileResult(Err(e)) =>
            t == s && acts == seq![Action::Send(Msg::Response(Err(e)))],
        Msg::GetUpdateProfileData(Ok(data)) => t == (Settings {
                request_profile: profile_of(data),
                current_data: Some(data),
                ..s
            })
            && acts == none(),
        Msg::GetUpdateProfileResult(Ok(rows)) => t == (Settings { get_result: rows, ..s })
            && acts == seq![Action::Send(Msg::GetCurrentData)],
        Msg::Ignore => t == s && acts == none(),
        Msg::UpdateOldPassword(p) => t == (Settings {
                request_password: UpdatePasswordInfo { old_password: p, ..s.request_password },
                ..s
            })
            && acts == none(),
        Msg::UpdateNewPassword(p) => t == (Settings {
                request_password: UpdatePasswordInfo { new_password: p, ..s.request_password },
                ..s
            })
            && acts == none(),
        Msg::UpdateFirstname(v) => t == with_profile(s, UserUpdateInfo { firstname: Some(v), ..f }) && acts == none(),
        Msg::UpdateLastname(v) => t == with_profile(s, UserUpdateInfo { lastname: Some(v), ..f }) && acts == none(),
        Msg::UpdateSecondname(v) => t == with_profile(s, UserUpdateInfo { secondname: Some(v), ..f }) && acts == none(),
        Msg::UpdateUsername(v) => t == with_profile(s, UserUpdateInfo { username: Some(v), ..f }) && acts == none(),
        Msg::UpdateEmail(v) => t == with_profile(s, UserUpdateInfo { email: Some(v), ..f }) && acts == none(),
        Msg::UpdateDescription(v) => t == with_profile(s, UserUpdateInfo { description: Some(v), ..f }) && acts == none(),
        Msg::UpdatePhone(v) => t == with_profile(s, UserUpdateInfo { phone: Some(v), ..f }) && acts == none(),
        Msg::UpdateAddress(v) => t == with_profile(s, UserUpdateInfo { address: Some(v), ..f }) && acts == none(),
        Msg::UpdatePosition(v) => t == with_profile(s, UserUpdateInfo { position: Some(v), ..f }) && acts == none(),
        Msg::UpdateTimeZone(v) => t == with_profile(s, UserUpdateInfo { time_zone: Some(v), ..f }) && acts == none(),
        Msg::UpdateProgramId(v) => t == with_profile(s, UserUpdateInfo {
                program_id: Some(match decimal_i64(v@) { Some(x) => x, None => 0 }),
                ..f
            })
            && acts == none(),
        Msg::UpdateRegionId(v) => t == with_profile(s, UserUpdateInfo {
                region_id: Some(match decimal_i64(v@) { Some(x) => x, None => 0 }),
                ..f
            })
            && acts == none(),
        Msg::UpdateList(Ok((regions, programs))) => t == (Settings { regions, programs, ..s }) && acts == none(),
        Msg::UpdateList(Err(e)) => t == (Settings { error: Some(e), ..s }) && acts == none(),
        Msg::GetCurrentData => t == s && acts == seq![Action::Query(SettingsRequest::LoadSelfData)],
    }
}

/// Password law: typing the old and then the new password and asking for
/// the change sends exactly those two passwords, in their places.
pub proof fn lemma_password_change_sends_typed(
    s: Settings,
    old_pw: String,
    new_pw: String,
    t: Settings,
    a1: Seq<Action>,
    u: Settings,
    a2: Seq<Action>,
    w: Settings,
    a3: Seq<Action>,
)
    requires
        next(s, Msg::UpdateOldPassword(old_pw), t, a1),
        next(t, Msg::UpdateNewPassword(new_pw), u, a2),
        next(u, Msg::RequestUpdatePassword, w, a3),
    ensures
        a1.len() == 0 && a2.len() == 0,
        a3 == seq![Action::Query(SettingsRequest::UpdatePassword(UpdatePasswordInfo { old_password: old_pw, new_password: new_pw }))],
        w.request_profile == s.request_profile,
{
}

/// Request law: saving the profile sends the profile form, changing the
/// password sends the password form, and of all messages only these two
/// ask for these requests.
pub proof fn lemma_settings_requests(s: Settings, m: Msg, t: Settings, acts: Seq<Action>, i: int)
    requires
        next(s, m, t, acts),
        0 <= i < acts.len(),
    ensures
        m is RequestUpdateProfile ==> acts == seq![Action::Query(SettingsRequest::UpdateProfile(s.request_profile))],
        m is RequestUpdatePassword ==> acts == seq![Action::Query(SettingsRequest::UpdatePassword(s.request_password))],
        acts[i] matches Action::Query(SettingsRequest::UpdateProfile(_)) ==> m is RequestUpdateProfile,
        acts[i] matches Action::Query(SettingsRequest::UpdatePassword(_)) ==> m is RequestUpdatePassword,
{
}

impl Settings {
    /// Whether the option of the program `id` shows as chosen: it is the
    /// program of the loaded data (which the form needs before it lists any
    /// option).
    pub fn is_program_selected(&self, id: usize) -> (r: bool)
        requires
            self.current_data.is_some(),
        ensures
            r == (self.current_data.unwrap().program_id == id),
    {
        match &self.current_data {
            Some(d) => d.program_id == id,
            None => false,
        }
    }

    /// Whether the option of the region `id` shows as chosen: it is the
    /// region of the loaded data (which the form needs before it lists any
    /// option).
    pub fn is_region_selected(&self, id: usize) -> (r: bool)
        requires
            self.current_data.is_some(),
        ensures
            r == (self.current_data.unwrap().region_id == id),
    {
        match &self.current_data {
            Some(d) => d.region_id == id,
            None => false,
        }
    }

    /// The page as first created: an empty form, the profile part shown.
    pub fn new() -> (s: Self)
        ensures
            s.error.is_none(),
            empty_profile(s.request_profile),
            s.request_password.old_password@.len() == 0,
            s.request_password.new_password@.len() == 0,
            s.current_data.is_none(),
            s.programs@.len() == 0,
            s.regions@.len() == 0,
            s.get_result == 0,
            !s.get_result_bool,
            s.select_menu == Menu::Profile,
    {
        Settings {
            error: None,
            request_profile: UserUpdateInfo::empty(),
            request_password: UpdatePasswordInfo { old_password: String::new(), new_password: String::new() },
            current_data: None,
            programs: Vec::new(),
            regions: Vec::new(),
            get_result: 0,
            get_result_bool: false,
            select_menu: Menu::Profile,
        }
    }

    /// Showing the page loads the user's data and lists the first time, for
    /// a signed-in user.
    pub fn on_render(&self, first_render: bool, authenticated: bool) -> (acts: Vec<Action>)
        ensures
            acts@ == (if first_render && authenticated {
                seq![Action::Query(SettingsRequest::LoadSettingData)]
            } else {
                none()
            }),
    {
        let mut acts: Vec<Action> = Vec::new();
        if first_render && authenticated {
            acts.push(Action::Query(SettingsRequest::LoadSettingData));
        }
        acts
    }

    /// Handles one message; see `next`.
    #[verifier::rlimit(60)]
    #[verifier::spinoff_prover]
    pub fn update(&mut self, msg: Msg) -> (acts: Vec<Action>)
        ensures
            next(*old(self), msg, *final(self), acts@),
    {
        let mut acts: Vec<Action> = Vec::new();
        match msg {
            Msg::SelectMenu(menu) => {
                self.select_menu = menu;
            },
            Msg::RequestUpdateProfile => {
                acts.push(Action::Query(SettingsRequest::UpdateProfile(self.request_profile.duplicate())));
            },
            Msg::RequestChangeAccess => {},
            Msg::RequestUpdatePassword => {
                acts.push(Action::Query(SettingsRequest::UpdatePassword(UpdatePasswordInfo {
                    old_password: self.request_password.old_password.clone(),
                    new_password: self.request_password.new_password.clone(),
                })));
            },
            Msg::Response(res) => match res {
                Ok(_) => {
                    self.error = None;
                    acts.push(Action::Route(AppRoute::Home));
                },
                Err(e) => {
                    self.error = Some(e);
                },
            },
            Msg::GetBoolResult(res) => match res {
                Ok(done) => {
                    self.get_result_bool = done;
                },
                Err(e) => {
                    acts.push(Action::Send(Msg::Response(Err(e))));
                },
            },
            Msg::GetUpdateProfileData(res) => match res {
                Ok(data) => {
                    self.request_profile = UserUpdateInfo::from_info(&data);
                    self.current_data = Some(data);
                },
                Err(e) => {
                    acts.push(Action::Send(Msg::Response(Err(e))));
                },
            },
            Msg::GetUpdateProfileResult(res) => match res {
                Ok(rows) => {
                    self.get_result = rows;
                    acts.push(Action::Send(Msg::GetCurrentData));
                },
                Err(e) => {
                    acts.push(Action::Send(Msg::Response(Err(e))));
                },
            },
            Msg::Ignore => {},
            Msg::UpdateOldPassword(p) => {
                self.request_password.old_password = p;
            },
            Msg::UpdateNewPassword(p) => {
                self.request_password.new_password = p;
            },
            Msg::UpdateFirstname(v) => {
                self.request_profile.firstname = Some(v);
            },
            Msg::UpdateLastname(v) => {
                self.request_profile.lastname = Some(v);
            },
            Msg::UpdateSecondname(v) => {
                self.request_profile.secondname = Some(v);
            },
            Msg::UpdateUsername(v) => {
                self.request_profile.username = Some(v);
            },
            Msg::UpdateEmail(v) => {
                self.request_profile.email = Some(v);
            },
            Msg::UpdateDescription(v) => {
                self.request_profile.description = Some(v);
            },
            Msg::UpdatePhone(v) => {
                self.request_profile.phone = Some(v);
            },
            Msg::UpdateAddress(v) => {
                self.request_profile.address = Some(v);
            },
            Msg::UpdatePosition(v) => {
                self.request_profile.position = Some(v);
            },
            Msg::UpdateTimeZone(v) => {
                self.request_profile.time_zone = Some(v);
            },
            Msg::UpdateProgramId(v) => {
                self.request_profile.program_id = Some(i64_or_zero(v.as_str()));
            },
            Msg::UpdateRegionId(v) => {
                self.request_profile.region_id = Some(i64_or_zero(v.as_str()));
            },
            Msg::UpdateList(res) => match res {
                Ok((regions, programs)) => {
                    self.regions = regions;
                    self.programs = programs;
                },
                Err(e) => {
                    self.error = Some(e);
                },
            },
            Msg::GetCurrentData => {
                acts.push(Action::Query(SettingsRequest::LoadSelfData));
            },
        }
        acts
    }
}

/// Profile law: once the user's data arrives, saving the profile without
/// further edits sends that very data back (every field but the time zone,
/// which the page leaves unset).
pub proof fn lemma_saved_profile_is_loaded_data(
    s: Settings,
    data: SelfUserInfo,
    t: Settings,
    a1: Seq<Action>,
    u: Settings,
    a2: Seq<Action>,
)
    requires
        next(s, Msg::GetUpdateProfileData(Ok(data)), t, a1),
        next(t, Msg::RequestUpdateProfile, u, a2),
    ensures
        a2 == seq![Action::Query(SettingsRequest::UpdateProfile(profile_of(data)))],
        u.current_data == Some(data),
{
}

} // verus!
