//! The page that orders a service from a supplier, for a signed-in user or
//! for a visitor who registers with the order.

use vstd::prelude::*;
use crate::common::CompanyShort;
use crate::route::AppRoute;

verus! {

/// The order being written.
pub struct ServiceCreateData {
    pub name: String,
    pub description: String,
    pub company_uuid: String,
    pub region_id: usize,
}

/// The account that a visitor registers with the order.
pub struct RegisterInfo {
    pub username: String,
    pub password: String,
    pub email: String,
    pub phone: String,
    pub firstname: String,
    pub lastname: String,
    pub secondname: String,
    pub description: String,
    pub address: String,
    pub time_zone: String,
    pub position: String,
    pub program_id: usize,
    pub type_access_id: usize,
}

/// The region that an account registered with an order gets ("Other").
pub open spec fn other_region() -> i64 {
    8
}

/// A request to the server or to the browser's storage.
pub enum ServiceRequest {
    /// The supplier companies to choose from.
    LoadCompanies,
    /// The order, with the new account for a visitor.
    Create { service: ServiceCreateData, user: Option<RegisterInfo>, user_region_id: i64 },
    /// Sign in with the new account.
    Login { username: String, password: String },
    /// The signed-in user's own data.
    LoadMySelf,
    /// Keep the token of the session.
    StoreToken(String),
    /// Keep the signed-in user's data (as the server wrote it).
    StoreLoggedUser(String),
}

/// What the page reacts to; replies arrive decoded, `Err` holding the
/// message of a failed reply.
pub enum Msg {
    RequestManager,
    RequestCreateServiceData,
    LoginRequest,
    LoginResponse(Result<String, String>),
    GetResponseMySelf(String),
    GetListOpt(Result<Vec<CompanyShort>, String>),
    GetCreateServiceResult(Result<String, String>),
    UpdateName(String),
    UpdateDescription(String),
    UpdateCompanyUuid(String),
    UpdateEmail(String),
    UpdateTel(String),
    UpdateUsername(String),
    UpdatePassword(String),
    ResponseError(String),
    ClearError,
    Ignore,
}

/// What a transition asks for.
pub enum Action {
    Query(ServiceRequest),
    Route(AppRoute),
    Send(Msg),
}

/// The state of the page.
pub struct CreateService {
    pub error: Option<String>,
    pub request_service: ServiceCreateData,
    pub request_user: RegisterInfo,
    pub new_service_uuid: String,
    pub company_list: Vec<CompanyShort>,
    pub disable_create_btn: bool,
    pub click_create_btn: bool,
    /// Whether a user is signed in.
    pub user_entry: bool,
    pub loading: bool,
}

/// No action.
pub open spec fn none() -> Seq<Action> {
    Seq::<Action>::empty()
}

/// The order can be sent: a supplier, a name and a description are given,
/// and a visitor has given a username, a password, an e-mail and a phone.
pub open spec fn order_complete(s: CreateService) -> bool {
    &&& s.request_service.company_uuid@.len() > 0
    &&& s.request_service.name@.len() > 0
    &&& s.request_service.description@.len() > 0
    &&& !s.user_entry ==> {
        &&& s.request_user.username@.len() > 0
        &&& s.request_user.password@.len() > 0
        &&& s.request_user.email@.len() > 0
        &&& s.request_user.phone@.len() > 0
    }
}

/// The transition of the page: from `s`, message `m` leads to `t` and asks
/// for `acts`; `render` is whether the page is drawn again.
pub open spec fn next(s: CreateService, m: Msg, t: CreateService, acts: Seq<Action>, render: bool) -> bool {
    match m {
        Msg::RequestManager => t == (CreateService {
                click_create_btn: true,
                disable_create_btn: order_complete(s),
                ..s
            })
            && acts == (if order_complete(s) { seq![Action::Send(Msg::RequestCreateServiceData)] } else { none() })
            && render,
        Msg::RequestCreateServiceData => t == (CreateService { loading: true, ..s })
            && acts == seq![Action::Query(ServiceRequest::Create {
                service: s.request_service,
                user: if s.user_entry { None } else { Some(s.request_user) },
                user_region_id: other_region(),
            })]
            && render,
        Msg::GetListOpt(Ok(companies)) => t == (CreateService { company_list: companies, ..s }) && acts == none() && render,
        Msg::GetListOpt(Err(e)) => t == s && acts == seq![Action::Send(Msg::ResponseError(e))] && render,
        Msg::LoginRequest => t == s
            && acts == seq![Action::Query(ServiceRequest::Login {
                username: s.request_user.username,
                password: s.request_user.password,
            })]
            && render,
        Msg::LoginResponse(Ok(token)) => t == s
            && acts == seq![Action::Query(ServiceRequest::StoreToken(token)), Action::Query(ServiceRequest::LoadMySelf)]
            && render,
        Msg::LoginResponse(Err(e)) => t == s && acts == seq![Action::Send(Msg::ResponseError(e))] && render,
        Msg::GetResponseMySelf(user) => t == s
            && acts == seq![
                Action::Query(ServiceRequest::StoreLoggedUser(user)),
                Action::Route(AppRoute::ShowService(s.new_service_uuid)),
            ]
            && render,
        Msg::GetCreateServiceResult(Ok(uuid)) => if uuid@.len() == 0 {
                t == (CreateService { loading: false, ..s }) && acts == none() && render
            } else {
                t == (CreateService { loading: false, new_service_uuid: uuid, ..s })
                    && acts == (if s.user_entry {
                        seq![Action::Route(AppRoute::ShowService(uuid))]
                    } else {
                        seq![Action::Send(Msg::LoginRequest)]
                    })
                    && !render
            },
        Msg::GetCreateServiceResult(Err(e)) => t == (CreateService { loading: false, ..s })
            && acts == seq![Action::Send(Msg::ResponseError(e))] && render,
        Msg::UpdateName(v) => t == (CreateService {
                disable_create_btn: v@.len() == 0,
                request_service: ServiceCreateData { name: v, ..s.request_service },
                ..s
            })
            && acts == none() && render,
        Msg::UpdateDescription(v) => t == (CreateService {
                disable_create_btn: v@.len() == 0,
                request_service: ServiceCreateData { description: v, ..s.request_service },
                ..s
            })
            && acts == none() && render,
        Msg::UpdateCompanyUuid(v) => t == (CreateService {
                disable_create_btn: v@.len() == 0,
                request_service: ServiceCreateData { company_uuid: v, ..s.request_service },
                ..s
            })
            && acts == none() && render,
        Msg::UpdateEmail(v) => t == (CreateService {
                disable_create_btn: v@.len() == 0,
                request_user: RegisterInfo { email: v, ..s.request_user },
                ..s
            })
            && acts == none() && render,
        Msg::UpdateTel(v) => t == (CreateService {
                disable_create_btn: v@.len() == 0,
                request_user: RegisterInfo { phone: v, ..s.request_user },
                ..s
            })
            && acts == none() && render,
        Msg::UpdateUsername(v) => t == (CreateService {
                disable_create_btn: v@.len() == 0,
                request_user: RegisterInfo { username: v, ..s.request_user },
                ..s
            })
            && acts == none() && render,
        Msg::UpdatePassword(v) => t == (CreateService {
                disable_create_btn: v@.len() == 0,
                request_user: RegisterInfo { password: v, ..s.request_user },
                ..s
            })
            && acts == none() && render,
        Msg::ResponseError(e) => t == (CreateService { error: Some(e), ..s }) && acts == none() && render,
        Msg::ClearError => t == (CreateService { error: None, ..s }) && acts == none() && render,
        Msg::Ignore => t == s && acts == none() && render,
    }
}

impl ServiceCreateData {
    /// The empty order.
    pub fn empty() -> (d: Self)
        ensures
            d.name@.len() == 0,
            d.description@.len() == 0,
            d.company_uuid@.len() == 0,
            d.region_id == 0,
    {
        ServiceCreateData { name: String::new(), description: String::new(), company_uuid: String::new(), region_id: 0 }
    }

    /// A copy of the order.
    pub fn duplicate(&self) -> (d: Self)
        ensures
            d == *self,
    {
        ServiceCreateData {
            name: self.name.clone(),
            description: self.description.clone(),
            company_uuid: self.company_uuid.clone(),
            region_id: self.region_id,
        }
    }
}

impl RegisterInfo {
    /// The empty account form.
    pub fn empty() -> (d: Self)
        ensures
            d.username@.len() == 0 && d.password@.len() == 0 && d.email@.len() == 0 && d.phone@.len() == 0,
            d.firstname@.len() == 0 && d.lastname@.len() == 0 && d.secondname@.len() == 0,
            d.description@.len() == 0 && d.address@.len() == 0 && d.time_zone@.len() == 0,
            d.position@.len() == 0 && d.program_id == 0 && d.type_access_id == 0,
    {
        RegisterInfo {
            username: String::new(),
            password: String::new(),
            email: String::new(),
            phone: String::new(),
            firstname: String::new(),
            lastname: String::new(),
            secondname: String::new(),
            description: String::new(),
            address: String::new(),
            time_zone: String::new(),
            position: String::new(),
            program_id: 0,
            type_access_id: 0,
        }
    }

    /// A copy of the account form.
    pub fn duplicate(&self) -> (d: Self)
        ensures
            d == *self,
    {
        RegisterInfo {
            username: self.username.clone(),
            password: self.password.clone(),
            email: self.email.clone(),
            phone: self.phone.clone(),
            firstname: self.firstname.clone(),
            lastname: self.lastname.clone(),
            secondname: self.secondname.clone(),
            description: self.description.clone(),
            address: self.address.clone(),
            time_zone: self.time_zone.clone(),
            position: self.position.clone(),
            program_id: self.program_id,
            type_access_id: self.type_access_id,
        }
    }
}

/// What the page does when it first shows: with a prepared order from a
/// calculation it fills the supplier, and the name (after the material,
/// the second parameter) and description where the calculation has
/// parameters; without one, a signed-in user gets the list of suppliers.
pub open spec fn first_actions(
    user_entry: bool,
    pre: Option<(String, Seq<(String, String)>)>,
    description: String,
    acts: Seq<Action>,
) -> bool {
    match pre {
        Some((company_uuid, params)) => if params.len() == 0 {
            acts == seq![Action::Send(Msg::UpdateCompanyUuid(company_uuid))]
        } else {
            &&& acts.len() == 3
            &&& acts[0] matches Action::Send(Msg::UpdateName(name))
                && name@ == "Заказ по материалу "@ + params[1].1@
            &&& acts[1] == Action::Send(Msg::UpdateDescription(description))
            &&& acts[2] == Action::Send(Msg::UpdateCompanyUuid(company_uuid))
        },
        None => acts == (if user_entry { seq![Action::Query(ServiceRequest::LoadCompanies)] } else { none() }),
    }
}

impl CreateService {
    /// Takes the order data given to the page; `props_changed` is whether
    /// it differs from the data given before. New data starts the page
    /// over: an empty order and account form, no supplier list, no user
    /// signed in, and the buttons as at first.
    pub fn change(&mut self, props_changed: bool) -> (redraw: bool)
        ensures
            redraw == props_changed,
            !props_changed ==> *final(self) == *old(self),
            props_changed ==> {
                &&& final(self).request_service.name@.len() == 0
                &&& final(self).request_service.description@.len() == 0
                &&& final(self).request_service.company_uuid@.len() == 0
                &&& final(self).request_service.region_id == 0
                &&& final(self).request_user.username@.len() == 0
                &&& final(self).request_user.password@.len() == 0
                &&& final(self).request_user.email@.len() == 0
                &&& final(self).request_user.phone@.len() == 0
                &&& final(self).new_service_uuid@.len() == 0
                &&& final(self).company_list@.len() == 0
                &&& *final(self) == (CreateService {
                    request_service: final(self).request_service,
                    request_user: final(self).request_user,
                    new_service_uuid: final(self).new_service_uuid,
                    company_list: final(self).company_list,
                    disable_create_btn: false,
                    click_create_btn: false,
                    user_entry: false,
                    ..*old(self)
                })
            },
    {
        if !props_changed {
            return false;
        }
        self.request_service = ServiceCreateData::empty();
        self.request_user = RegisterInfo::empty();
        self.new_service_uuid = String::new();
        self.company_list.clear();
        self.disable_create_btn = false;
        self.click_create_btn = false;
        self.user_entry = false;
        true
    }

    /// The page as first created; `user_entry` is whether a user is
    /// signed in.
    pub fn new(user_entry: bool) -> (s: Self)
        ensures
            s.error.is_none(),
            s.request_service.name@.len() == 0,
            s.request_service.description@.len() == 0,
            s.request_service.company_uuid@.len() == 0,
            s.request_user.username@.len() == 0,
            s.request_user.password@.len() == 0,
            s.new_service_uuid@.len() == 0,
            s.company_list@.len() == 0,
            !s.disable_create_btn,
            !s.click_create_btn,
            s.user_entry == user_entry,
            !s.loading,
    {
        CreateService {
            error: None,
            request_service: ServiceCreateData::empty(),
            request_user: RegisterInfo::empty(),
            new_service_uuid: String::new(),
            company_list: Vec::new(),
            disable_create_btn: false,
            click_create_btn: false,
            user_entry,
            loading: false,
        }
    }

    /// What showing the page for the first time asks for; see
    /// `first_actions`. `pre` is a prepared order (its supplier and the
    /// parameters of its calculation) and `description` the text that
    /// describes that calculation. A calculation with parameters has at
    /// least two of them.
    pub fn on_first_render(&self, pre: Option<(String, Vec<(String, String)>)>, description: String) -> (acts: Vec<Action>)
        requires
            pre matches Some((_, params)) ==> (params@.len() == 0 || params@.len() >= 2),
        ensures
            first_actions(self.user_entry, match pre { Some((c, p)) => Some((c, p@)), None => None }, description, acts@),
    {
        let mut acts: Vec<Action> = Vec::new();
        match pre {
            Some((company_uuid, params)) => {
                if params.len() == 0 {
                    acts.push(Action::Send(Msg::UpdateCompanyUuid(company_uuid)));
                } else {
                    let name = "Заказ по материалу ".to_owned().concat(params[1].1.as_str());
                    acts.push(Action::Send(Msg::UpdateName(name)));
                    acts.push(Action::Send(Msg::UpdateDescription(description)));
                    acts.push(Action::Send(Msg::UpdateCompanyUuid(company_uuid)));
                }
            },
            None => {
                if self.user_entry {
                    acts.push(Action::Query(ServiceRequest::LoadCompanies));
                }
            },
        }
        acts
    }

    /// Handles one message; see `next`. The flag is whether the page is
    /// drawn again.
    #[verifier::rlimit(60)]
    #[verifier::spinoff_prover]
    pub fn update(&mut self, msg: Msg) -> (r: (bool, Vec<Action>))
        ensures
            next(*old(self), msg, *final(self), r.1@, r.0),
    {
        let mut acts: Vec<Action> = Vec::new();
        match msg {
            Msg::RequestManager => {
                self.click_create_btn = true;
                let mut flag = true;
                if self.request_service.company_uuid.as_str().is_empty() {
                    flag = false;
                }
                if self.request_service.name.as_str().is_empty() {
                    flag = false;
                }
                if self.request_service.description.as_str().is_empty() {
                    flag = false;
                }
                if !self.user_entry {
                    if self.request_user.username.as_str().is_empty() {
                        flag = false;
                    }
                    if self.request_user.password.as_str().is_empty() {
                        flag = false;
                    }
                    if self.request_user.email.as_str().is_empty() {
                        flag = false;
                    }
                    if self.request_user.phone.as_str().is_empty() {
                        flag = false;
                    }
                }
                self.disable_create_btn = flag;
                if flag {
                    acts.push(Action::Send(Msg::RequestCreateServiceData));
                }
            },
            Msg::RequestCreateServiceData => {
                self.loading = true;
                let user = if self.user_entry { None } else { Some(self.request_user.duplicate()) };
                acts.push(Action::Query(ServiceRequest::Create {
                    service: self.request_service.duplicate(),
                    user,
                    user_region_id: 8,
                }));
            },
            Msg::GetListOpt(res) => match res {
                Ok(companies) => {
                    self.company_list = companies;
                },
                Err(e) => {
                    acts.push(Action::Send(Msg::ResponseError(e)));
                },
            },
            Msg::LoginRequest => {
                acts.push(Action::Query(ServiceRequest::Login {
                    username: self.request_user.username.clone(),
                    password: self.request_user.password.clone(),
                }));
            },
            Msg::LoginResponse(res) => match res {
                Ok(token) => {
                    acts.push(Action::Query(ServiceRequest::StoreToken(token)));
                    acts.push(Action::Query(ServiceRequest::LoadMySelf));
                    assert(acts@ =~= seq![Action::Query(ServiceRequest::StoreToken(token)), Action::Query(ServiceRequest::LoadMySelf)]);
                },
                Err(e) => {
                    acts.push(Action::Send(Msg::ResponseError(e)));
                },
            },
            Msg::GetResponseMySelf(user) => {
                acts.push(Action::Query(ServiceRequest::StoreLoggedUser(user)));
                acts.push(Action::Route(AppRoute::ShowService(self.new_service_uuid.clone())));
                assert(acts@ =~= seq![
                    Action::Query(ServiceRequest::StoreLoggedUser(user)),
                    Action::Route(AppRoute::ShowService(self.new_service_uuid)),
                ]);
            },
            Msg::GetCreateServiceResult(res) => {
                self.loading = false;
                match res {
                    Ok(uuid) => {
                        if uuid.as_str().is_empty() {
                            return (true, acts);
                        }
                        self.new_service_uuid = uuid;
                        if self.user_entry {
                            acts.push(Action::Route(AppRoute::ShowService(self.new_service_uuid.clone())));
                        } else {
                            acts.push(Action::Send(Msg::LoginRequest));
                        }
                        return (false, acts);
                    },
                    Err(e) => {
                        acts.push(Action::Send(Msg::ResponseError(e)));
                    },
                }
            },
            Msg::UpdateName(v) => {
                self.disable_create_btn = v.as_str().is_empty();
                self.request_service.name = v;
            },
            Msg::UpdateDescription(v) => {
                self.disable_create_btn = v.as_str().is_empty();
                self.request_service.description = v;
            },
            Msg::UpdateCompanyUuid(v) => {
                self.disable_create_btn = v.as_str().is_empty();
                self.request_service.company_uuid = v;
            },
            Msg::UpdateEmail(v) => {
                self.disable_create_btn = v.as_str().is_empty();
                self.request_user.email = v;
            },
            Msg::UpdateTel(v) => {
                self.disable_create_btn = v.as_str().is_empty();
                self.request_user.phone = v;
            },
            Msg::UpdateUsername(v) => {
                self.disable_create_btn = v.as_str().is_empty();
                self.request_user.username = v;
            },
            Msg::UpdatePassword(v) => {
                self.disable_create_btn = v.as_str().is_empty();
                self.request_user.password = v;
            },
            Msg::ResponseError(e) => {
                self.error = Some(e);
            },
            Msg::ClearError => {
                self.error = None;
            },
            Msg::Ignore => {},
        }
        (true, acts)
    }
}

/// Order law: the order goes out exactly when the form is complete; an
/// order from a visitor carries the new account, and one from a signed-in
/// user carries none.
pub proof fn lemma_order_sent_only_when_complete(
    s: CreateService,
    t: CreateService,
    a1: Seq<Action>,
    r1: bool,
    u: CreateService,
    a2: Seq<Action>,
    r2: bool,
)
    requires
        next(s, Msg::RequestManager, t, a1, r1),
        next(t, Msg::RequestCreateServiceData, u, a2, r2),
    ensures
        a1.len() > 0 <==> order_complete(s),
        a2[0] matches Action::Query(ServiceRequest::Create { service, user, .. })
            && service == s.request_service
            && (user is None <==> s.user_entry)
            && (user matches Some(account) ==> account == s.request_user),
{
}

/// Sign-in law: after the order is made for a new user, typing a username
/// and a password and signing in sends exactly those two, and the token the
/// server answers with is the one stored.
pub proof fn lemma_sign_in_sends_typed_credentials(
    s: CreateService,
    name: String,
    pw: String,
    t: CreateService,
    a1: Seq<Action>,
    r1: bool,
    u: CreateService,
    a2: Seq<Action>,
    r2: bool,
    w: CreateService,
    a3: Seq<Action>,
    r3: bool,
    token: String,
    z: CreateService,
    a4: Seq<Action>,
    r4: bool,
)
    requires
        next(s, Msg::UpdateUsername(name), t, a1, r1),
        next(t, Msg::UpdatePassword(pw), u, a2, r2),
        next(u, Msg::LoginRequest, w, a3, r3),
        next(w, Msg::LoginResponse(Ok(token)), z, a4, r4),
    ensures
        a3 == seq![Action::Query(ServiceRequest::Login { username: name, password: pw })],
        a4[0] == Action::Query(ServiceRequest::StoreToken(token)),
{
}

/// Request law: of all messages, only a sign-in asks to sign in, only a
/// successful sign-in reply stores a token (its own), and only the message
/// that sends the order asks to create the service.
pub proof fn lemma_requests_come_from_their_messages(
    s: CreateService,
    m: Msg,
    t: CreateService,
    acts: Seq<Action>,
    render: bool,
    i: int,
)
    requires
        next(s, m, t, acts, render),
        0 <= i < acts.len(),
    ensures
        acts[i] matches Action::Query(ServiceRequest::Login { .. }) ==> m is LoginRequest,
        acts[i] matches Action::Query(ServiceRequest::StoreToken(x)) ==> m == Msg::LoginResponse(Ok(x)),
        acts[i] matches Action::Query(ServiceRequest::Create { .. }) ==> m is RequestCreateServiceData,
{
}

} // verus!
