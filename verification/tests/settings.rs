use cadbase_front::company_settings::{
    menu_config, Menu, Action as CompanyAction, CompanyRequest, CompanySettings, Msg as CompanyMsg, PageEnv,
};
use cadbase_front::service_create::{Action as OrderAction, CreateService, Msg as OrderMsg};
use cadbase_front::standard_create::{
    Action as StdAction, CreateStandard, Msg as StdMsg, StandardCreateData, StandardCreateRequest,
};
use cadbase_front::user_settings::{Action as SettingsAction, Msg as SettingsMsg, SelfUserInfo, Settings, SettingsRequest};

fn env() -> PageEnv {
    PageEnv { logged_username: Some("bob".to_string()), fragment: "#/company/settings/c1".to_string() }
}

fn empty_standard() -> StandardCreateData {
    StandardCreateData {
        parent_standard_uuid: None,
        classifier: String::new(),
        name: String::new(),
        description: String::new(),
        specified_tolerance: String::new(),
        technical_committee: String::new(),
        publication_at: 0,
        company_uuid: String::new(),
        type_access_id: 1,
        standard_status_id: 1,
        region_id: 1,
    }
}

#[test]
fn company_removal_takes_two_clicks() {
    let mut page = CompanySettings::new("c1".to_string());
    assert!(!page.change("c1".to_string()));
    assert!(page.change("c2".to_string()));
    assert_eq!(page.props_company_uuid, "c2");
    page.company_uuid = "c1".to_string();
    let first = page.update(CompanyMsg::RequestRemoveCompany, &env());
    assert!(first.is_empty());
    assert_eq!(page.get_confirm, "c1");
    let second = page.update(CompanyMsg::RequestRemoveCompany, &env());
    assert_eq!(second.len(), 1);
    assert!(matches!(&second[0], CompanyAction::Query(CompanyRequest::Delete { company_uuid }) if company_uuid == "c1"));
}

#[test]
fn saved_profile_is_loaded_data() {
    let mut page = Settings::new();
    let data = SelfUserInfo {
        firstname: "Ann".to_string(),
        lastname: "Lee".to_string(),
        secondname: String::new(),
        username: "ann".to_string(),
        email: "ann@example.org".to_string(),
        description: String::new(),
        position: String::new(),
        phone: String::new(),
        address: String::new(),
        region_id: 3,
        program_id: 2,
        updated_at: String::new(),
    };
    page.update(SettingsMsg::GetUpdateProfileData(Ok(data)));
    let acts = page.update(SettingsMsg::RequestUpdateProfile);
    assert!(matches!(&acts[0], SettingsAction::Query(SettingsRequest::UpdateProfile(p))
        if p.firstname.as_deref() == Some("Ann") && p.region_id == Some(3) && p.program_id == Some(2) && p.time_zone.is_none()));
    page.update(SettingsMsg::UpdateRegionId("x".to_string()));
    assert_eq!(page.request_profile.region_id, Some(0));
}

#[test]
fn order_sent_only_when_complete() {
    let mut page = CreateService::new(true);
    let (_, acts) = page.update(OrderMsg::RequestManager);
    assert!(acts.is_empty());
    page.update(OrderMsg::UpdateName("Order".to_string()));
    page.update(OrderMsg::UpdateDescription("Mill it".to_string()));
    page.update(OrderMsg::UpdateCompanyUuid("co".to_string()));
    let (_, acts) = page.update(OrderMsg::RequestManager);
    assert_eq!(acts.len(), 1);
    assert!(matches!(acts[0], OrderAction::Send(OrderMsg::RequestCreateServiceData)));
}

#[test]
fn visitor_order_needs_account() {
    let mut page = CreateService::new(false);
    page.update(OrderMsg::UpdateName("Order".to_string()));
    page.update(OrderMsg::UpdateDescription("Mill it".to_string()));
    page.update(OrderMsg::UpdateCompanyUuid("co".to_string()));
    let (_, acts) = page.update(OrderMsg::RequestManager);
    assert!(acts.is_empty());
}

#[test]
fn standard_registered_only_when_complete() {
    let mut page = CreateStandard::new(empty_standard());
    let acts = page.update(StdMsg::RequestManager);
    assert!(acts.is_empty());
    for msg in vec![
        StdMsg::UpdateClassifier("GOST".to_string()),
        StdMsg::UpdateName("Bolts".to_string()),
        StdMsg::UpdateDescription("About bolts".to_string()),
        StdMsg::UpdateSpecifiedTolerance("h7".to_string()),
        StdMsg::UpdateTechnicalCommittee("TC1".to_string()),
        StdMsg::UpdateCompanyUuid("co".to_string()),
    ] {
        page.update(msg);
    }
    let acts = page.update(StdMsg::RequestManager);
    assert!(matches!(acts[0], StdAction::Send(StdMsg::RequestCreateStandardData)));
    let acts = page.update(StdMsg::RequestCreateStandardData);
    assert!(matches!(&acts[0], StdAction::Query(StandardCreateRequest::Register(d)) if d.name == "Bolts" && d.company_uuid == "co"));
    page.update(StdMsg::UpdatePublicationAt("2021-03-04".to_string()));
    assert_eq!(page.request_standard.publication_at, 1_614_816_000);
    page.update(StdMsg::UpdatePublicationAt("someday".to_string()));
    assert_eq!(page.request_standard.publication_at, 1_614_816_000);
}

#[test]
fn only_removal_entry_is_marked_danger() {
    let items = menu_config();
    assert_eq!(items.len(), 9);
    assert!(matches!(items[0].tab, Menu::OpenCompany));
    assert!(matches!(items[8].tab, Menu::RemoveCompany));
    assert_eq!(items[8].custom_class, Some("has-background-danger-light"));
    assert!(items[..8].iter().all(|m| m.custom_class.is_none()));
}
