use cadbase_front::query::query_headers;
use cadbase_front::company_create::input_type_of;
use cadbase_front::profile::update_time_shown;
use cadbase_front::api_keys::{
    expires_soon, order_active_first, Action as KeyAction, ApiKeyData, ApiKeyManager, ApiKeyRequest, Msg as KeyMsg,
};
use cadbase_front::common::{
    Timestamp,    first_chars_of, can_upload, copy_texts, current_timestamp, i64_or, i64_or_zero, parse_publication_date, usize_or_zero,
};
use cadbase_front::company::{contact_block, spec_block, to_dispaly_order, CompanyInfo, ContactKind, TitleOrder};
use cadbase_front::route::{fix_fragment_routes, route_target, same_text, AppRoute};
use cadbase_front::three_showcase::file_base_name;
use cadbase_front::home::wraps_text;
use cadbase_front::about_us::random_author_seeds;

fn at(secs: i64) -> Timestamp {
    Timestamp { secs, nanos: 0 }
}

fn key(id: i64, active: bool, expires_at: i64) -> ApiKeyData {
    ApiKeyData { id, name: format!("key{}", id), is_active: active, expires_at: at(expires_at), last_used_at: None, created_at: at(0) }
}

fn company(inn: &str, address: &str, region_id: usize, region_name: &str) -> CompanyInfo {
    CompanyInfo {
        uuid: "c1".to_string(),
        orgname: "Org".to_string(),
        shortname: "Org Ltd".to_string(),
        inn: inn.to_string(),
        phone: String::new(),
        email: "mail@org.example".to_string(),
        description: String::new(),
        address: address.to_string(),
        site_url: String::new(),
        time_zone: String::new(),
        region_id,
        region_name: region_name.to_string(),
        company_type_id: 1,
        company_type_shortname: "LLC".to_string(),
        owner_user_uuid: "u1".to_string(),
        subscribers: 0,
        is_followed: false,
        company_certificates: vec!["cert".to_string()],
        company_represents: Vec::new(),
        company_specs: Vec::new(),
    }
}

#[test]
fn numbers_read_from_fields() {
    assert_eq!(i64_or_zero("42"), 42);
    assert_eq!(i64_or_zero("-7"), -7);
    assert_eq!(i64_or_zero("+5"), 5);
    assert_eq!(i64_or_zero("abc"), 0);
    assert_eq!(i64_or_zero(""), 0);
    assert_eq!(i64_or_zero("9223372036854775808"), 0);
    assert_eq!(usize_or_zero("17"), 17);
    assert_eq!(usize_or_zero("-1"), 0);
    assert_eq!(i64_or("x", 1), 1);
    assert_eq!(i64_or("3", 1), 3);
    assert_eq!(i64_or_zero("-9223372036854775808"), i64::MIN);
    assert_eq!(i64_or_zero("9223372036854775807"), i64::MAX);
    assert_eq!(i64_or_zero("007"), 7);
    assert_eq!(i64_or_zero("-"), 0);
    assert_eq!(i64_or_zero("1 2"), 0);
    assert_eq!(usize_or_zero("+7"), 7);
    assert_eq!(usize_or_zero("99999999999999999999999"), 0);
    assert_eq!(usize_or_zero("١٢"), 0);
}

#[test]
fn clock_reading_is_in_range() {
    let t = current_timestamp();
    assert!(t.secs >= 1_600_000_000);
    assert!(t.secs <= 8_210_266_876_799);
    assert!(t.nanos < 1_000_000_000);
}

#[test]
fn publication_date_is_midnight_utc() {
    assert_eq!(parse_publication_date("2021-03-04"), Some(1_614_816_000));
    assert_eq!(parse_publication_date("not a date"), None);
}

#[test]
fn upload_needs_saved_object_and_files() {
    let uuid = "123e4567-e89b-12d3-a456-426614174000".to_string();
    assert!(can_upload(&uuid, &vec!["a.step".to_string()]));
    assert!(!can_upload(&uuid, &Vec::new()));
    assert!(!can_upload(&"short".to_string(), &vec!["a.step".to_string()]));
}

#[test]
fn texts_are_copied_in_order() {
    let v = vec!["a".to_string(), "b".to_string()];
    assert_eq!(copy_texts(&v), v);
}

#[test]
fn fragment_is_kept_from_hash() {
    let mut r = "https://cadbase.rs/#/component/abc".to_string();
    fix_fragment_routes(&mut r);
    assert_eq!(r, "#/component/abc");
    let mut none = "https://cadbase.rs/".to_string();
    fix_fragment_routes(&mut none);
    assert_eq!(none, "#/");
}

#[test]
fn route_target_strips_every_leading_prefix() {
    assert_eq!(route_target("#/component/abc", "#/component/"), "abc");
    assert_eq!(route_target("#/component/#/component/abc", "#/component/"), "abc");
    assert_eq!(route_target("#/company/abc", "#/component/"), "#/company/abc");
    assert_eq!(route_target("abc", ""), "abc");
}

#[test]
fn target_of_path_gives_uuid_back() {
    let path = AppRoute::ShowCompany("u-42".to_string()).to_path();
    assert_eq!(path, "#/company/u-42");
    assert_eq!(route_target(&path, "#/company/"), "u-42");
    assert_eq!(AppRoute::Profile("bob".to_string()).to_path(), "#/@bob");
    assert_eq!(AppRoute::Home.to_path(), "#/");
}

#[test]
fn texts_compare_by_characters() {
    assert!(same_text("abc", "abc"));
    assert!(!same_text("abc", "abd"));
    assert!(!same_text("abc", "ab"));
}

#[test]
fn keys_listed_active_first() {
    let keys = vec![key(1, false, 0), key(2, true, 0), key(3, false, 0), key(4, true, 0)];
    let ids: Vec<i64> = order_active_first(&keys).iter().map(|k| k.id).collect();
    assert_eq!(ids, vec![2, 4, 1, 3]);
}

#[test]
fn expiry_warning_within_a_week() {
    let now = 1_700_000_000;
    assert!(expires_soon(&key(1, true, now + 6 * 86400), at(now)));
    assert!(!expires_soon(&key(1, true, now + 8 * 86400), at(now)));
    assert!(!expires_soon(&key(1, false, now + 86400), at(now)));
    assert!(expires_soon(&key(1, true, now - 86400), at(now)));
    assert!(!expires_soon(&key(1, true, now + 7 * 86400), at(now)));
    let later = Timestamp { secs: now, nanos: 1 };
    assert!(expires_soon(&key(1, true, now + 7 * 86400), later));
    let row = ApiKeyManager::new_at(at(0)).key_row(&key(3, false, now), at(now));
    assert!(!row.active && !row.show_rotate && !row.confirm_delete && !row.buttons_disabled);
}

#[test]
fn key_manager_starts_with_expiry_a_year_ahead() {
    let m = ApiKeyManager::new_at(at(0));
    assert_eq!(m.new_key_expiry, Some(at(31_536_000)));
    assert!(m.api_keys.is_empty());
    assert!(!m.loading);
}

#[test]
fn expiry_field_sets_or_clears_expiry() {
    let mut m = ApiKeyManager::new_at(at(0));
    m.update(KeyMsg::UpdateExpiry("2030-01-01".to_string()));
    assert_eq!(m.new_key_expiry, Some(at(1_893_456_000)));
    m.update(KeyMsg::UpdateExpiry("soon".to_string()));
    assert_eq!(m.new_key_expiry, Some(at(1_893_456_000)));
    m.update(KeyMsg::UpdateExpiry(String::new()));
    assert_eq!(m.new_key_expiry, None);
    m.apply_expiry(false, Some(5));
    assert_eq!(m.new_key_expiry, Some(at(5)));
}

#[test]
fn delete_needs_two_clicks() {
    let mut m = ApiKeyManager::new_at(at(0));
    let first = m.update(KeyMsg::ConfirmDelete(5, true));
    assert!(first.is_empty());
    assert_eq!(m.delete_confirm_id, 5);
    let second = m.update(KeyMsg::ConfirmDelete(5, true));
    assert_eq!(second.len(), 1);
    assert!(matches!(second[0], KeyAction::Send(KeyMsg::DeleteKey(5))));
    assert_eq!(m.delete_confirm_id, 0);
    let sent = m.update(KeyMsg::DeleteKey(5));
    assert!(matches!(&sent[0], KeyAction::Query(ApiKeyRequest::Delete(d)) if d.key_id == 5));
}

#[test]
fn key_creation_needs_a_name() {
    let mut m = ApiKeyManager::new_at(at(0));
    assert!(m.update(KeyMsg::CreateKey).is_empty());
    m.update(KeyMsg::UpdateKeyName("ci".to_string()));
    let acts = m.update(KeyMsg::CreateKey);
    assert!(matches!(&acts[0], KeyAction::Query(ApiKeyRequest::Create(c)) if c.name == "ci" && c.expires_at == Some(at(31_536_000))));
    assert!(m.loading);
}

#[test]
fn loaded_keys_error_is_reported() {
    let mut m = ApiKeyManager::new_at(at(0));
    let acts = m.update(KeyMsg::ApiKeysLoaded(Err("denied".to_string())));
    assert!(matches!(&acts[0], KeyAction::Send(KeyMsg::ResponseError(e)) if e == "denied"));
    m.update(KeyMsg::ApiKeysLoaded(Ok(vec![key(1, false, 0), key(2, true, 0)])));
    assert_eq!(m.api_keys[0].id, 2);
}

#[test]
fn title_order_by_type_and_language() {
    assert!(matches!(to_dispaly_order(10, Some("ru".to_string())), TitleOrder::NameOnly));
    assert!(matches!(to_dispaly_order(1, Some("ru".to_string())), TitleOrder::TypeThenName));
    assert!(matches!(to_dispaly_order(1, Some("en".to_string())), TitleOrder::NameThenType));
    assert!(matches!(to_dispaly_order(1, None), TitleOrder::NameThenType));
}

#[test]
fn contact_lines_skip_blank_fields() {
    let lines = contact_block(&company("7701", "", 3, "Moscow"));
    assert_eq!(lines.len(), 3);
    assert!(matches!(lines[0].0, ContactKind::RegNumber));
    assert_eq!(lines[0].1, "7701");
    assert!(matches!(lines[1].0, ContactKind::Email));
    assert!(matches!(lines[2].0, ContactKind::Location));
    assert_eq!(lines[2].1, "Moscow");
    let other = contact_block(&company("", "", 8, "Other"));
    assert_eq!(other.len(), 1);
    let with_address = contact_block(&company("", "Main st. 1", 8, "Other"));
    assert_eq!(with_address[1].1, "Main st. 1");
}

#[test]
fn specs_shown_only_when_present() {
    let mut c = company("", "", 1, "");
    assert!(spec_block(&c).is_none());
    c.company_specs = vec!["s1".to_string()];
    assert_eq!(spec_block(&c), Some(vec!["s1".to_string()]));
}

#[test]
fn base_name_stops_at_first_dot() {
    assert_eq!(file_base_name("model.part.gltf"), "model");
    assert_eq!(file_base_name("noext"), "noext");
    assert_eq!(file_base_name(".hidden"), "");
}

#[test]
fn empty_filter_is_no_filter() {
    assert_eq!(wraps_text(String::new()), None);
    assert_eq!(wraps_text("x".to_string()), Some("x".to_string()));
}

#[test]
fn two_authors_are_drawn() {
    assert_eq!(random_author_seeds().len(), 2);
}

#[test]
fn leading_characters_are_kept() {
    assert_eq!(first_chars_of("héllo", 2), "hé");
    assert_eq!(first_chars_of("abc", 10), "abc");
    assert_eq!(first_chars_of("abc", 0), "");
}

#[test]
fn form_fields_take_their_input_kind() {
    assert_eq!(input_type_of("email"), "email");
    assert_eq!(input_type_of("password"), "password");
    assert_eq!(input_type_of("orgname"), "text");
}

#[test]
fn update_time_shown_to_the_second() {
    assert_eq!(update_time_shown("2021-03-04T10:11:12.123456"), "2021-03-04T10:11:12");
    assert_eq!(update_time_shown("2021"), "2021");
}

#[test]
fn new_key_secret_shown_once() {
    let mut m = ApiKeyManager::new_at(at(0));
    let acts = m.update(KeyMsg::KeyCreated(Ok("secret-token".to_string())));
    assert!(m.show_new_key_modal);
    assert_eq!(m.new_key_token, "secret-token");
    assert!(matches!(acts[0], KeyAction::Send(KeyMsg::FetchApiKeys)));
    m.update(KeyMsg::HideNewKeyModal);
    assert!(!m.show_new_key_modal);
    assert!(m.new_key_token.is_empty());
}

#[test]
fn expiry_kept_to_the_nanosecond() {
    let m = ApiKeyManager::new_at(Timestamp { secs: 10, nanos: 500 });
    assert_eq!(m.new_key_expiry, Some(Timestamp { secs: 31_536_010, nanos: 500 }));
    assert!(m.create_disabled());
}

#[test]
fn request_headers_by_session() {
    let h = query_headers(Some("tok".to_string()), Some("ru".to_string()));
    assert_eq!(h, vec![("Authorization".to_string(), "Bearer tok".to_string()), ("Accept-Language".to_string(), "ru".to_string())]);
    assert!(query_headers(None, None).is_empty());
    assert_eq!(query_headers(None, Some("en".to_string())).len(), 1);
}
