use cadbase_front::company_register::{CreateCompany as FirstForm, Msg as FirstMsg};
use cadbase_front::component_settings::ComponentSettings;
use cadbase_front::service_settings::ServiceSettings;
use cadbase_front::service_create::{CreateService, Msg as OrderMsg};
use cadbase_front::catalog::ComponentTemp;
use cadbase_front::auth::{Action as AuthAction, AuthRequest, Login, LoginMsg, Register, RegisterMsg, SlimUser};
use cadbase_front::catalog::{Catalog, CatalogRequest, ListState, Msg as CatalogMsg};
use cadbase_front::common::DownloadFile;
use cadbase_front::company_create::{
    Action as CreateCompanyAction, CreateCompany, CreateCompanyRequest, Msg as CreateCompanyMsg,
};
use cadbase_front::company_show::{Action as ShowCompanyAction, CompanyTab, Msg as ShowCompanyMsg, ShowCompany, ShowCompanyRequest};
use cadbase_front::company_supplier::{menu_config, CompanyTab as SupplierTab, ShowSupplierCompany};
use cadbase_front::component_create::{Action as CreateComponentAction, CreateComponent, CreateComponentRequest, Msg as CreateComponentMsg};
use cadbase_front::component_show::{
    Action as ShowComponentAction, ActiveTab, ComponentData, Msg as ShowComponentMsg, ShowComponent, ShowComponentRequest,
};
use cadbase_front::home::{Home, HomeAction, HomeMsg, HomeRequest, SearchMsg, SearchPage};
use cadbase_front::profile::{Action as ProfileAction, Msg as ProfileMsg, Profile, ProfileRequest, UserInfo};
use cadbase_front::route::AppRoute;
use cadbase_front::service_show::{Action as ShowServiceAction, Msg as ShowServiceMsg, ServiceData, ShowService, ShowServiceRequest};
use cadbase_front::standard_create::{CreateStandard, StandardCreateData};
use cadbase_front::standard_settings::{Action as StandardSettingsAction, Msg as StandardSettingsMsg, StandardSettings};
use cadbase_front::standard_show::{Action as ShowStandardAction, Msg as ShowStandardMsg, ShowStandard, StandardData};
use cadbase_front::tender::{CreateTender, Item, Tenders, ITEMS_SHOWN};
use cadbase_front::about_us::{AboutUs, Msg as AboutMsg, CAROUSEL_DELAY_MS};

fn file(name: &str) -> DownloadFile {
    DownloadFile {
        uuid: format!("f-{}", name),
        hash: String::new(),
        filename: name.to_string(),
        filesize: 1,
        download_url: format!("https://files.example/{}", name),
    }
}

fn component_data(uuid: &str, owner: &str, description: &str) -> ComponentData {
    ComponentData {
        uuid: uuid.to_string(),
        name: "Bolt".to_string(),
        description: description.to_string(),
        owner_uuid: owner.to_string(),
        subscribers: 3,
        is_followed: false,
        image_file: file("main.png"),
    }
}

#[test]
fn create_company_sends_form_and_opens_new_company() {
    let mut page = CreateCompany::new("u1".to_string());
    assert_eq!(page.request_company.region_id, 1);
    page.update(CreateCompanyMsg::UpdateOrgname("Acme".to_string()));
    page.update(CreateCompanyMsg::UpdateRegionId("7".to_string()));
    page.update(CreateCompanyMsg::UpdateCompanyTypeId("none".to_string()));
    assert_eq!(page.request_company.region_id, 7);
    assert_eq!(page.request_company.company_type_id, 1);
    let acts = page.update(CreateCompanyMsg::RequestCreateCompany);
    assert!(matches!(&acts[0], CreateCompanyAction::Query(CreateCompanyRequest::Register(f)) if f.orgname == "Acme" && f.region_id == 7));
    let acts = page.update(CreateCompanyMsg::GetCreateCompanyResult(Ok("new-uuid".to_string())));
    assert!(matches!(&acts[0], CreateCompanyAction::Route(AppRoute::ShowCompany(u)) if u == "new-uuid"));
    let acts = page.update(CreateCompanyMsg::GetCreateCompanyResult(Err("taken".to_string())));
    assert!(matches!(&acts[0], CreateCompanyAction::Send(CreateCompanyMsg::ResponseError(e)) if e == "taken"));
    page.update(CreateCompanyMsg::UpdateList(Err("no lists".to_string())));
    assert_eq!(page.error.as_deref(), Some("no lists"));
}

#[test]
fn create_company_render_sends_visitor_to_login() {
    let page = CreateCompany::new(String::new());
    let acts = page.on_render(true, false);
    assert_eq!(acts.len(), 2);
    assert!(matches!(acts[0], CreateCompanyAction::Route(AppRoute::Login)));
    assert!(matches!(acts[1], CreateCompanyAction::Query(CreateCompanyRequest::LoadLists)));
    assert!(page.on_render(false, true).is_empty());
}

#[test]
fn component_follow_then_unfollow_restores_count() {
    let mut page = ShowComponent::new("c1".to_string());
    page.update(ShowComponentMsg::GetComponentData(Ok(component_data("c1", "u1", "short"))), Some("u1".to_string()));
    assert!(page.current_user_owner);
    assert!(page.show_full_description);
    assert_eq!(page.quantity(), 3);
    let acts = page.update(ShowComponentMsg::Follow, None);
    assert!(matches!(&acts[0], ShowComponentAction::Query(ShowComponentRequest::AddFav { component_uuid }) if component_uuid == "c1"));
    page.update(ShowComponentMsg::AddFollow(Ok(true)), None);
    assert_eq!(page.subscribers, 4);
    assert!(page.is_followed);
    page.update(ShowComponentMsg::DelFollow(Ok(true)), None);
    assert_eq!(page.subscribers, 3);
    assert!(!page.is_followed);
    page.update(ShowComponentMsg::AddFollow(Ok(false)), None);
    assert_eq!(page.subscribers, 3);
}

#[test]
fn component_main_image_stays_first() {
    let mut page = ShowComponent::new("c1".to_string());
    page.update(ShowComponentMsg::GetComponentData(Ok(component_data("c1", "u2", &"x".repeat(300)))), Some("u1".to_string()));
    assert!(!page.current_user_owner);
    assert!(!page.show_full_description);
    page.update(ShowComponentMsg::GetDownloadFileResult(Ok(vec![file("a.stl"), file("b.stl")])), None);
    let names: Vec<&str> = page.file_arr.iter().map(|f| f.filename.as_str()).collect();
    assert_eq!(names, vec!["main.png", "a.stl", "b.stl"]);
    page.update(ShowComponentMsg::ChangeActiveTab(ActiveTab::ComponentFiles), None);
    assert!(page.active_tab == ActiveTab::ComponentFiles);
}

#[test]
fn component_render_loads_target_and_files() {
    let mut page = ShowComponent::new("c1".to_string());
    let acts = page.on_render(true, false, "#/component/c9");
    assert_eq!(acts.len(), 3);
    assert!(matches!(acts[0], ShowComponentAction::Query(ShowComponentRequest::SetHistoryBack)));
    assert!(matches!(&acts[1], ShowComponentAction::Query(ShowComponentRequest::Load { component_uuid }) if component_uuid == "c9"));
    assert!(matches!(&acts[2], ShowComponentAction::Query(ShowComponentRequest::Files(q)) if q.component_uuid == "c9" && q.files_uuids.is_none()));
    assert_eq!(page.current_component_uuid, "c9");
    assert!(page.on_render(false, true, "#/component/c9").is_empty());
}

#[test]
fn component_load_error_sends_visitor_to_login() {
    let mut page = ShowComponent::new("c1".to_string());
    let acts = page.update(ShowComponentMsg::GetComponentData(Err("hidden".to_string())), None);
    assert_eq!(acts.len(), 3);
    assert!(matches!(acts[2], ShowComponentAction::Route(AppRoute::Login)));
    let acts = page.update(ShowComponentMsg::GetComponentData(Err("hidden".to_string())), Some("u".to_string()));
    assert_eq!(acts.len(), 1);
}

#[test]
fn standard_files_put_main_image_last() {
    let mut page = ShowStandard::new("s1".to_string());
    page.update(
        ShowStandardMsg::GetStandardData(Ok(StandardData {
            uuid: "s1".to_string(),
            name: "ISO".to_string(),
            description: String::new(),
            owner_uuid: "u1".to_string(),
            subscribers: 0,
            is_followed: false,
            image_file: file("main.png"),
        })),
        None,
    );
    page.update(ShowStandardMsg::GetDownloadFilesResult(Ok(Vec::new())), None);
    assert_eq!(page.file_arr.len(), 1);
    page.update(ShowStandardMsg::GetDownloadFilesResult(Ok(vec![file("doc.pdf")])), None);
    let names: Vec<&str> = page.file_arr.iter().map(|f| f.filename.as_str()).collect();
    assert_eq!(names, vec!["doc.pdf", "main.png"]);
    let acts = page.update(ShowStandardMsg::OpenStandardSetting, None);
    assert!(matches!(&acts[0], ShowStandardAction::Route(AppRoute::StandardSettings(u)) if u == "s1"));
}

#[test]
fn standard_render_for_visitor() {
    let mut page = ShowStandard::new("s1".to_string());
    let acts = page.on_render(true, false, "#/standard/s2");
    assert_eq!(acts.len(), 4);
    assert!(matches!(acts[1], ShowStandardAction::Route(AppRoute::Login)));
    assert!(matches!(acts[2], ShowStandardAction::Send(ShowStandardMsg::RequestDownloadFiles)));
}

#[test]
fn service_owner_flag_follows_signed_in_user() {
    let mut page = ShowService::new("sv".to_string());
    let d = ServiceData { uuid: "sv".to_string(), name: "Milling".to_string(), description: "d".to_string(), owner_uuid: "u1".to_string() };
    page.update(ShowServiceMsg::GetServiceData(Ok(d)), Some("u1".to_string()));
    assert!(page.current_user_owner);
    let acts = page.update(ShowServiceMsg::RequestDownloadFiles, None);
    assert!(matches!(&acts[0], ShowServiceAction::Query(ShowServiceRequest::Files { service_uuid }) if service_uuid == "sv"));
    let acts = page.update(ShowServiceMsg::OpenServiceSetting, None);
    assert!(matches!(&acts[0], ShowServiceAction::Route(AppRoute::ServiceSettings(u)) if u == "sv"));
}

#[test]
fn create_component_needs_a_name() {
    let mut page = CreateComponent::new(Some("co".to_string()));
    let acts = page.update(CreateComponentMsg::RequestManager);
    assert_eq!(acts.len(), 1);
    assert!(matches!(acts[0], CreateComponentAction::Send(CreateComponentMsg::Focuser)));
    assert!(page.name_empty);
    assert!(!page.disable_create_btn);
    page.update(CreateComponentMsg::UpdateName("Nut".to_string()));
    let acts = page.update(CreateComponentMsg::RequestManager);
    assert_eq!(acts.len(), 1);
    assert!(matches!(acts[0], CreateComponentAction::Send(CreateComponentMsg::RequestCreateComponentData)));
    let acts = page.update(CreateComponentMsg::GetCreateComponentResult(Ok("cu".to_string())));
    assert!(matches!(&acts[0], CreateComponentAction::Send(CreateComponentMsg::RequestChangeOwnerSupplier(c, co)) if c == "cu" && co == "co"));
    let acts = page.update(CreateComponentMsg::GetUpdateSetSupplierResult(Ok(true), "cu".to_string()));
    assert!(matches!(&acts[0], CreateComponentAction::Route(AppRoute::ComponentSettings(u)) if u == "cu"));
    assert!(page.update(CreateComponentMsg::GetCreateComponentResult(Ok(String::new()))).is_empty());
    let acts = page.update(CreateComponentMsg::Focuser);
    assert!(matches!(&acts[0], CreateComponentAction::Query(CreateComponentRequest::Focus(id)) if id == "update-component-name"));
}

#[test]
fn company_counts_certificates_tab() {
    let mut page = ShowCompany::new("c1".to_string());
    assert_eq!(page.get_number_of_items(CompanyTab::Certificates), 0);
    assert!(page.is_active(CompanyTab::Components));
    assert!(!page.check_extend(CompanyTab::Components));
    let acts = page.on_render(true, true, "#/company/c1");
    assert!(matches!(&acts[0], ShowCompanyAction::Query(ShowCompanyRequest::Load { company_uuid }) if company_uuid == "c1"));
    page.update(ShowCompanyMsg::ChangeTab(CompanyTab::Standards), None);
    assert!(page.is_active(CompanyTab::Standards));
    assert!(!page.change("c1".to_string()));
    assert!(page.change("c2".to_string()));
}

#[test]
fn supplier_menu_lists_five_tabs() {
    let items = menu_config();
    assert_eq!(items.len(), 5);
    assert!(items[0].tab == SupplierTab::Info);
    assert!(items[4].tab == SupplierTab::Standards);
    let page = ShowSupplierCompany::new("c1".to_string());
    assert!(page.is_active(SupplierTab::Info));
}

#[test]
fn profile_holds_one_user() {
    let mut page = Profile::new("bob".to_string(), Some("bob".to_string()));
    let acts = page.on_render(true, true);
    assert!(matches!(acts[0], ProfileAction::Query(ProfileRequest::LoadSelf)));
    page.update(ProfileMsg::GetUserData(Ok(UserInfo {
        uuid: "u2".to_string(),
        username: "ann".to_string(),
        firstname: String::new(),
        lastname: String::new(),
        description: String::new(),
        subscribers: 0,
    })));
    assert!(page.profile.is_some());
    assert!(page.self_profile.is_none());
    let other = Profile::new("ann".to_string(), Some("bob".to_string()));
    let acts = other.on_render(true, true);
    assert!(matches!(&acts[0], ProfileAction::Query(ProfileRequest::LoadUser { username }) if username == "ann"));
    assert!(other.on_render(true, false).is_empty());
}

#[test]
fn login_opens_home_after_user_known() {
    let mut page = Login::new();
    page.update(LoginMsg::UpdateUsername("bob".to_string()));
    let acts = page.update(LoginMsg::Request);
    assert!(matches!(&acts[0], AuthAction::Query(AuthRequest::Login(l)) if l.username == "bob"));
    let acts = page.update(LoginMsg::Response(Ok("tok".to_string())));
    assert!(matches!(&acts[0], AuthAction::Query(AuthRequest::StoreToken(t)) if t == "tok"));
    assert!(matches!(acts[1], AuthAction::Query(AuthRequest::LoadMySelf)));
    let acts = page.update(LoginMsg::MySelf(SlimUser { uuid: "u".to_string(), username: "bob".to_string() }));
    assert!(matches!(acts[1], AuthAction::Route(AppRoute::Home)));
    page.update(LoginMsg::Response(Err("wrong password".to_string())));
    assert!(!page.pending);
    assert_eq!(page.error.as_deref(), Some("wrong password"));
}

#[test]
fn register_answer_ends_wait() {
    let mut page = Register::new();
    page.update(RegisterMsg::Request);
    assert!(page.pending);
    page.update(RegisterMsg::Response(Err("exists".to_string())));
    assert!(!page.pending);
    assert!(page.error.is_some());
    let acts = page.update(RegisterMsg::Response(Ok(SlimUser { uuid: "u".to_string(), username: "ann".to_string() })));
    assert!(page.error.is_none());
    assert!(matches!(acts[1], AuthAction::Route(AppRoute::Home)));
}

#[test]
fn home_hands_search_text_over() {
    let mut home = Home::new();
    home.update(HomeMsg::InputSearch("bolt".to_string()));
    let acts = home.update(HomeMsg::OpenSearchPage);
    assert!(matches!(&acts[0], HomeAction::Query(HomeRequest::SetHistorySearch(t)) if t == "bolt"));
    assert!(matches!(acts[1], HomeAction::Route(AppRoute::SearchPage)));
    let acts = home.on_render(true, Some("bob".to_string()));
    assert!(matches!(&acts[0], HomeAction::Route(AppRoute::Profile(u)) if u == "bob"));
    let (mut search, reqs) = SearchPage::new(Some("bolt".to_string()));
    assert_eq!(search.search_arg.search, "bolt");
    assert_eq!(reqs.len(), 1);
    assert!(matches!(reqs[0], HomeRequest::ClearHistorySearch));
    let (fresh, reqs) = SearchPage::new(None);
    assert!(fresh.search_arg.search.is_empty());
    assert!(reqs.is_empty());
    search.update(SearchMsg::ForCompany(String::new()));
    assert!(search.search_arg.company_uuid.is_none());
    search.update(SearchMsg::ForUser("u1".to_string()));
    assert_eq!(search.search_arg.user_uuid.as_deref(), Some("u1"));
    search.update(SearchMsg::ByParams);
    assert!(search.search_arg.by_params);
}

#[test]
fn catalog_switches_layout_back() {
    let mut c = Catalog::new();
    assert!(c.show_list());
    c.update(CatalogMsg::SwitchShowType);
    assert!(c.show_type == ListState::Box);
    c.update(CatalogMsg::SwitchShowType);
    assert!(c.show_type == ListState::List);
    let reqs = c.update(CatalogMsg::AddFav("c1".to_string()));
    assert!(matches!(&reqs[0], CatalogRequest::AddFav { component_uuid } if component_uuid == "c1"));
    let reqs = c.update(CatalogMsg::FavUpdated);
    assert!(matches!(reqs[0], CatalogRequest::RawList));
    c.update(CatalogMsg::AddOne);
    assert_eq!(c.value, 1);
}

#[test]
fn standard_settings_save_sends_pending_edits() {
    let mut page = StandardSettings::new("s1".to_string());
    let (_, acts) = page.update(StandardSettingsMsg::RequestManager);
    assert!(acts.is_empty());
    page.update(StandardSettingsMsg::UpdateName("New".to_string()));
    assert!(!page.disable_save_changes_btn);
    let (_, acts) = page.update(StandardSettingsMsg::RequestManager);
    assert_eq!(acts.len(), 1);
    assert!(matches!(acts[0], StandardSettingsAction::Send(StandardSettingsMsg::RequestUpdateStandardData)));
    assert!(page.disable_save_changes_btn);
    page.apply_publication_at(Some(86_400));
    assert_eq!(page.request_standard.publication_at, Some(86_400));
}

#[test]
fn standard_publication_date_from_field() {
    let form = StandardCreateData {
        parent_standard_uuid: None,
        classifier: String::new(),
        name: String::new(),
        description: String::new(),
        specified_tolerance: String::new(),
        technical_committee: String::new(),
        publication_at: 0,
        company_uuid: String::new(),
        type_access_id: 1,
        standard_status_id: 1,
        region_id: 1,
    };
    let mut page = CreateStandard::new(form);
    page.apply_publication_at(None);
    assert_eq!(page.request_standard.publication_at, 0);
    page.apply_publication_at(Some(1_614_816_000));
    assert_eq!(page.request_standard.publication_at, 1_614_816_000);
}

#[test]
fn tender_counters_count() {
    let mut t = Tenders::new();
    assert!(t.add_one());
    assert_eq!(t.value, 1);
    assert!(!t.change());
    let mut c = CreateTender::new();
    c.add_one();
    c.add_one();
    assert_eq!(c.value, 2);
    let mut i = Item::new();
    i.add_one();
    assert_eq!(i.value, 1);
    assert_eq!(ITEMS_SHOWN, 3);
}

#[test]
fn about_page_shows_two_authors() {
    let mut page = AboutUs::new();
    assert_eq!(page.seeds.len(), 2);
    assert!(page.update(AboutMsg::NextAuthors));
    assert_eq!(page.seeds.len(), 2);
    assert!(!page.change());
    assert_eq!(CAROUSEL_DELAY_MS, 15000);
}

#[test]
fn first_company_form_defaults_to_zero() {
    let mut page = FirstForm::new();
    page.update(FirstMsg::UpdateRegionId("none".to_string()));
    assert_eq!(page.request_company.region_id, 0);
    page.update(FirstMsg::UpdateTypeAccessId("2".to_string()));
    assert_eq!(page.request_company.type_access_id, 2);
    assert!(page.on_render(true, false).is_empty());
    assert_eq!(page.on_render(true, true).len(), 1);
}

#[test]
fn settings_pages_redraw_for_other_object() {
    let mut s = StandardSettings::new("s1".to_string());
    assert!(!s.change("s1".to_string()));
    assert!(s.change("s2".to_string()));
    assert_eq!(s.standard_uuid, "s2");
    let mut c = ComponentSettings::new("c1".to_string());
    assert!(c.change("c2".to_string()));
    let mut v = ServiceSettings::new("v1".to_string());
    assert!(!v.change("v1".to_string()));
}

#[test]
fn new_order_data_starts_page_over() {
    let mut page = CreateService::new(true);
    page.update(OrderMsg::UpdateName("Order".to_string()));
    assert!(!page.change(false));
    assert_eq!(page.request_service.name, "Order");
    assert!(page.change(true));
    assert!(page.request_service.name.is_empty());
    assert!(!page.user_entry);
}

#[test]
fn component_placeholder_counts() {
    let mut t = ComponentTemp::new();
    assert!(t.add_one());
    assert_eq!(t.value, 1);
    assert!(!t.change());
}

#[test]
fn long_descriptions_are_cut_to_two_hundred_chars() {
    let long = "ж".repeat(130);
    let mut page = ShowComponent::new("c1".to_string());
    let (text, toggle) = page.description_view(&"short".to_string());
    assert_eq!(text.as_deref(), Some("short"));
    assert!(!toggle);
    let (text, toggle) = page.description_view(&long);
    assert_eq!(text.map(|t| t.chars().count()), Some(130));
    assert!(toggle);
    let longer = "ab".repeat(150);
    let (text, toggle) = page.description_view(&longer);
    assert_eq!(text.unwrap().len(), 200);
    assert!(toggle);
    page.update(ShowComponentMsg::ShowDescription, None);
    let (text, toggle) = page.description_view(&longer);
    assert!(text.is_none());
    assert!(!toggle);
    let mut std_page = ShowStandard::new("s1".to_string());
    let (text, toggle) = std_page.description_view(&longer);
    assert_eq!(text.len(), 200);
    assert!(toggle);
    std_page.update(ShowStandardMsg::ShowDescription, None);
    let (text, toggle) = std_page.description_view(&longer);
    assert_eq!(text.len(), 300);
    assert!(toggle);
}
