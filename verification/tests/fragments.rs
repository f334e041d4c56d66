use cadbase_front::catalog::{ListItem, ItemMsg as EntryMsg, ItemEvent, ListState, BoxItem};
use cadbase_front::common::{DownloadFile, NamedId, UploadTicket};
use cadbase_front::three_showcase::{
    Action as ShowcaseAction, ModelFormat, Msg as ShowcaseMsg, ShowcaseFile, ShowcaseRequest, ThreeShowcase,
};
use cadbase_front::token_manager::{Action as TokenAction, Msg as TokenMsg, TokenCheck, TokenManager, TokenRequest, TokenStatus};
use cadbase_front::type_access::{Msg as TypeAccessMsg, TypeAccessBlock};
use cadbase_front::upload_favicon::{Action as FaviconAction, FaviconRequest, Msg as FaviconMsg, UpdateFaviconBlock};
use cadbase_front::user_certificate::{
    AddUserCertificateCard, CardMsg, ItemAction, ItemMsg, ItemRequest, UploadAction, UploadMsg, UploadRequest,
    UserCertificate, UserCertificateItem, UserCertificatesCard, NewUserCertData,
};
use cadbase_front::user_list::{Action as UsersAction, CatalogUsers, GoToUser, ListItemUser, ModalCardUser, Msg as UsersMsg, ShowUserShort, UsersRequest};
use cadbase_front::route::AppRoute;

fn file(name: &str) -> DownloadFile {
    DownloadFile {
        uuid: format!("f-{}", name),
        hash: String::new(),
        filename: name.to_string(),
        filesize: 10,
        download_url: format!("https://files.example/{}", name),
    }
}

fn shown(name: &str, format: Option<ModelFormat>, gltf_resource: bool) -> ShowcaseFile {
    ShowcaseFile { file: file(name), format, gltf_resource }
}

fn cert(uuid: &str) -> UserCertificate {
    let mut f = file("cert.pdf");
    f.uuid = uuid.to_string();
    UserCertificate { user_uuid: "u1".to_string(), file: f, description: "ISO".to_string() }
}

fn user(uuid: &str, username: &str) -> ShowUserShort {
    ShowUserShort {
        uuid: uuid.to_string(),
        firstname: "A".to_string(),
        lastname: "B".to_string(),
        username: username.to_string(),
        image_file: file("face.png"),
    }
}

#[test]
fn showcase_picks_first_model_and_gltf_resources() {
    let mut v = ThreeShowcase::new("123e4567-e89b-12d3-a456-426614174000".to_string());
    let acts = v.update(ShowcaseMsg::RequestDownloadFilesetFiles);
    assert!(matches!(&acts[0], ShowcaseAction::Query(ShowcaseRequest::FilesetFiles { current_page: 1, per_page: 50, .. })));
    let files = vec![
        shown("readme.txt", None, false),
        shown("engine.gltf", Some(ModelFormat::Gltf), false),
        shown("engine.bin", None, true),
        shown("engine", None, true),
        shown("part.stl", Some(ModelFormat::Other(2)), false),
        shown("skin.png", None, true),
    ];
    let acts = v.update(ShowcaseMsg::GetDownloadFilesetFilesResult(Ok(files)));
    assert!(matches!(acts[0], ShowcaseAction::Send(ShowcaseMsg::ShowThree)));
    assert_eq!(v.suitable_files.len(), 2);
    let (chosen, format) = v.selected_file.as_ref().unwrap();
    assert_eq!(chosen.filename, "engine.gltf");
    assert!(*format == ModelFormat::Gltf);
    let names: Vec<&str> = v.resource_files.iter().map(|f| f.filename.as_str()).collect();
    assert_eq!(names, vec!["engine.bin", "skin.png"]);
    let acts = v.update(ShowcaseMsg::ShowThree);
    assert!(matches!(&acts[0], ShowcaseAction::Query(ShowcaseRequest::Preview { resources, full_screen: false, .. }) if resources.len() == 2 && resources[0].0 == "engine.bin"));
}

#[test]
fn showcase_without_models_selects_nothing() {
    let mut v = ThreeShowcase::new("short".to_string());
    assert!(v.update(ShowcaseMsg::RequestDownloadFilesetFiles).is_empty());
    let acts = v.update(ShowcaseMsg::GetDownloadFilesetFilesResult(Ok(vec![shown("a.txt", None, true)])));
    assert!(acts.is_empty());
    assert!(v.selected_file.is_none());
    assert!(v.resource_files.is_empty());
    assert!(v.update(ShowcaseMsg::ShowThree).is_empty());
    let (redraw, acts) = v.change("other".to_string());
    assert!(redraw);
    assert!(matches!(acts[0], ShowcaseAction::Send(ShowcaseMsg::RequestDownloadFilesetFiles)));
    assert!(v.file_arr.is_empty());
    let (redraw, _) = v.change("other".to_string());
    assert!(!redraw);
}

#[test]
fn showcase_other_format_needs_no_resources() {
    let mut v = ThreeShowcase::new("x".to_string());
    v.update(ShowcaseMsg::GetDownloadFilesetFilesResult(Ok(vec![
        shown("part.stl", Some(ModelFormat::Other(1)), false),
        shown("skin.png", None, true),
    ])));
    assert!(v.resource_files.is_empty());
    let acts = v.update(ShowcaseMsg::ChangeTypeShow);
    assert!(v.full_screen);
    assert!(matches!(acts[0], ShowcaseAction::Send(ShowcaseMsg::ShowThree)));
}

#[test]
fn token_checked_and_renewed_near_expiry() {
    let mut m = TokenManager::new(true);
    let acts = m.update(TokenMsg::CheckToken, false);
    assert!(matches!(acts[0], TokenAction::Send(TokenMsg::TokenExpired)));
    let acts = m.update(TokenMsg::CheckToken, true);
    assert!(matches!(acts[0], TokenAction::Query(TokenRequest::Check)));
    let acts = m.update(TokenMsg::CheckTokenResult(Ok(TokenCheck { is_token_valid: Some(true), token_days_until_expiry: Some(3) })), true);
    assert!(matches!(acts[0], TokenAction::Send(TokenMsg::NewToken)));
    assert!(m.status == TokenStatus::Refreshing);
    let acts = m.update(TokenMsg::CheckTokenResult(Ok(TokenCheck { is_token_valid: Some(true), token_days_until_expiry: Some(4) })), true);
    assert!(acts.is_empty());
    assert!(m.status == TokenStatus::Valid);
    let acts = m.update(TokenMsg::CheckTokenResult(Ok(TokenCheck { is_token_valid: Some(true), token_days_until_expiry: None })), true);
    assert!(matches!(acts[0], TokenAction::Send(TokenMsg::NewToken)));
    let acts = m.update(TokenMsg::CheckTokenResult(Ok(TokenCheck { is_token_valid: None, token_days_until_expiry: Some(30) })), true);
    assert!(matches!(acts[0], TokenAction::Send(TokenMsg::TokenExpired)));
    let acts = m.update(TokenMsg::NewTokenResult(Ok("fresh".to_string())), true);
    assert!(matches!(&acts[0], TokenAction::Query(TokenRequest::SetToken(Some(t))) if t == "fresh"));
    assert!(m.status == TokenStatus::Refreshed);
}

#[test]
fn expired_session_is_cleared() {
    let mut m = TokenManager::new(true);
    let acts = m.update(TokenMsg::TokenExpired, true);
    assert_eq!(acts.len(), 3);
    assert!(matches!(acts[0], TokenAction::Query(TokenRequest::SetToken(None))));
    assert!(matches!(acts[1], TokenAction::Query(TokenRequest::ClearLoggedUser)));
    assert!(matches!(acts[2], TokenAction::Query(TokenRequest::NotifyExpired)));
    let mut quiet = TokenManager::new(false);
    assert_eq!(quiet.update(TokenMsg::TokenExpired, true).len(), 2);
    assert!(quiet.status == TokenStatus::Expired);
}

#[test]
fn removed_certificate_is_hidden() {
    let certs = vec![cert("a"), cert("b"), cert("c")];
    let mut card = UserCertificatesCard::new("u1".to_string(), 3);
    assert_eq!(card.visible_certificates(&certs).len(), 3);
    card.update(CardMsg::RemoveCertificate("b".to_string()));
    card.update(CardMsg::RemoveCertificate("b".to_string()));
    assert_eq!(card.deleted_cert_list.len(), 1);
    let left: Vec<String> = card.visible_certificates(&certs).iter().map(|c| c.file.uuid.clone()).collect();
    assert_eq!(left, vec!["a".to_string(), "c".to_string()]);
    assert!(!card.changed("u1".to_string(), 3));
    assert!(card.changed("u1".to_string(), 2));
}

#[test]
fn certificate_deletion_reported_when_confirmed() {
    let mut item = UserCertificateItem::new(cert("a"));
    assert_eq!(item.request_update, "ISO");
    assert!(item.update(ItemMsg::GetDeleteCertResult(Ok(false))).is_empty());
    let acts = item.update(ItemMsg::GetDeleteCertResult(Ok(true)));
    assert!(matches!(&acts[0], ItemAction::Query(ItemRequest::Deleted(u)) if u == "a"));
    let acts = item.update(ItemMsg::GetUpdateResult(Err("no".to_string())));
    assert!(matches!(&acts[0], ItemAction::Send(ItemMsg::ResponseError(e)) if e == "no"));
    let acts = item.update(ItemMsg::RequestDeleteCert("a".to_string()));
    assert!(matches!(&acts[0], ItemAction::Query(ItemRequest::Delete { file_uuid }) if file_uuid == "a"));
}

#[test]
fn certificate_upload_needs_a_file() {
    let mut card = AddUserCertificateCard::new("u1".to_string());
    assert!(card.update(UploadMsg::RequestUploadData).is_empty());
    assert!(card.dis_upload_btn);
    card.update(UploadMsg::UpdateFiles(Some(vec!["diploma.pdf".to_string(), "other.pdf".to_string()])));
    assert!(!card.dis_upload_btn);
    card.update(UploadMsg::UpdateDescription("Diploma".to_string()));
    let acts = card.update(UploadMsg::RequestUploadData);
    assert!(matches!(&acts[0], UploadAction::Query(UploadRequest::Register(d)) if d.filename == "diploma.pdf" && d.description == "Diploma"));
    let ticket = UploadTicket { file_uuid: "f".to_string(), filename: "diploma.pdf".to_string(), upload_url: "https://s3/x".to_string() };
    let acts = card.update(UploadMsg::GetUploadData(Ok(ticket)));
    assert!(matches!(acts[0], UploadAction::Query(UploadRequest::Store(_))));
    card.update(UploadMsg::GetUploadCompleted(Ok(1)));
    assert!(card.get_result_up_completed);
    assert!(!card.active_loading_files_btn);
    let acts = card.update(UploadMsg::HideNotification);
    assert!(matches!(acts[0], UploadAction::Send(UploadMsg::ClearFileBoxed)));
    card.update(UploadMsg::ClearFileBoxed);
    assert!(card.file.is_none());
    assert!(card.dis_upload_btn);
    let empty = NewUserCertData::new();
    assert!(empty.filename.is_empty());
}

#[test]
fn favicon_goes_to_its_owner() {
    let mut user_block = UpdateFaviconBlock::new(None);
    assert_eq!(user_block.reply_key(), "uploadFavicon");
    let acts = user_block.update(FaviconMsg::RequestUploadData(vec!["me.png".to_string(), "x.png".to_string()]));
    assert!(matches!(&acts[0], FaviconAction::Send(FaviconMsg::RequestUploadUserData(n)) if n == "me.png"));
    assert!(user_block.update(FaviconMsg::RequestUploadData(Vec::new())).is_empty());
    let mut company_block = UpdateFaviconBlock::new(Some("co".to_string()));
    assert_eq!(company_block.reply_key(), "uploadCompanyFavicon");
    let acts = company_block.update(FaviconMsg::RequestUploadCompanyData("logo.png".to_string()));
    assert!(matches!(&acts[0], FaviconAction::Query(FaviconRequest::UploadCompany { company_uuid, filename }) if company_uuid == "co" && filename == "logo.png"));
    let acts = company_block.update(FaviconMsg::UploadConfirm(0));
    assert!(!company_block.get_result_up_completed);
    assert!(matches!(acts[0], FaviconAction::Query(FaviconRequest::Uploaded)));
}

#[test]
fn user_catalog_remembers_layout() {
    let mut c = CatalogUsers::new(None, ListState::List);
    let acts = c.update(UsersMsg::SwitchShowType);
    assert!(c.show_type == ListState::Box);
    assert!(matches!(acts[0], UsersAction::Query(UsersRequest::StoreShowType(ListState::Box))));
    let acts = c.update(UsersMsg::GetList);
    assert!(matches!(acts[0], UsersAction::Query(UsersRequest::Users(None))));
    c.update(UsersMsg::UpdateList(Ok(vec![user("u1", "bob")])));
    assert_eq!(c.list.len(), 1);
}

#[test]
fn user_links_open_profiles() {
    let mut entry = ListItemUser::new(&user("u1", "bob"), true);
    assert!(matches!(entry.show_profile(), AppRoute::Profile(n) if n == "bob"));
    assert!(!entry.change(&user("u1", "bobby"), true));
    assert!(entry.change(&user("u2", "ann"), true));
    assert_eq!(entry.username, "ann");
    let mut link = GoToUser::new(&user("u1", "bob"));
    assert!(matches!(link.show_owner_user_card(), AppRoute::Profile(n) if n == "bob"));
    assert!(link.change(&user("u3", "eve")));
    let mut card = ModalCardUser::new();
    card.show_owner_user_card();
    assert!(card.open_owner_user_info);
}

#[test]
fn access_type_preset_until_chosen() {
    let types = vec![NamedId { id: 1, name: "Open".to_string() }, NamedId { id: 2, name: "Private".to_string() }];
    let mut block = TypeAccessBlock::new(types, 0, Some(2));
    assert!(block.is_checked(2));
    assert!(!block.is_checked(1));
    assert_eq!(block.update(TypeAccessMsg::UpdateTypeAccessId(1)), Some(1));
    assert_eq!(block.update(TypeAccessMsg::Ignore), None);
    let same = vec![NamedId { id: 1, name: "Open".to_string() }, NamedId { id: 2, name: "Private".to_string() }];
    assert!(!block.change(same, 0, None));
    let again = vec![NamedId { id: 1, name: "Open".to_string() }, NamedId { id: 2, name: "Private".to_string() }];
    assert!(block.change(again, 1, None));
    assert!(block.is_checked(1));
}

#[test]
fn catalog_entry_toggles_bookmark() {
    let mut followed = ListItem::new(true, true);
    assert!(matches!(followed.update(EntryMsg::TriggerFav), Some(ItemEvent::DelFav(t)) if t.is_empty()));
    let mut free = ListItem::new(false, false);
    assert!(matches!(free.update(EntryMsg::TriggerFav), Some(ItemEvent::AddFav(_))));
    assert!(free.update(EntryMsg::AddOne).is_none());
    assert_eq!(free.value, 1);
    assert!(!free.change(false, false));
    assert!(free.change(true, false));
    let mut b = BoxItem::new();
    assert!(b.add_one());
    assert_eq!(b.value, 1);
}
