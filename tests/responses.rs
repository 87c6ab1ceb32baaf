use steam_rs::errors::{ErrorHandle, StoreServiceError};
use steam_rs::executor::{execute, request_url, unwrap_envelope};
use steam_rs::json::{find_field, Json};
use steam_rs::store_service::{
    app_list_from_envelope, app_list_to_envelope, read_app, App, AppList,
};
use steam_rs::Steam;

fn obj(members: Vec<(&str, Json)>) -> Json {
    Json::Object(members.into_iter().map(|(k, v)| (k.to_string(), v)).collect())
}

fn app_json(appid: u64, name: &str) -> Json {
    obj(vec![
        ("appid", Json::UInt(appid)),
        ("name", Json::Str(name.to_string())),
        ("last_modified", Json::UInt(1600000000)),
        ("price_change_number", Json::UInt(7)),
    ])
}

fn sample_list() -> AppList {
    AppList {
        apps: vec![
            App { appid: 10, name: "Counter-Strike".to_string(), last_modified: 1, price_change_number: 2 },
            App { appid: 440, name: "Team Fortress 2".to_string(), last_modified: 3, price_change_number: 4 },
        ],
        have_more_results: Some(true),
        last_appid: 440,
    }
}

#[test]
fn envelope_round_trip() {
    let list = sample_list();
    let back = app_list_from_envelope(app_list_to_envelope(&list)).unwrap();
    assert_eq!(back, list);
}

#[test]
fn envelope_round_trip_without_more_flag() {
    let list = AppList { apps: vec![], have_more_results: None, last_appid: 0 };
    let back = app_list_from_envelope(app_list_to_envelope(&list)).unwrap();
    assert_eq!(back, list);
}

#[test]
fn decodes_members_in_any_order_and_ignores_others() {
    let payload = obj(vec![
        ("last_appid", Json::UInt(440)),
        ("extra", Json::Str("ignored".to_string())),
        ("apps", Json::Array(vec![app_json(440, "Team Fortress 2")])),
    ]);
    let list = app_list_from_envelope(obj(vec![("response", payload)])).unwrap();
    assert_eq!(list.last_appid, 440);
    assert_eq!(list.have_more_results, None);
    assert_eq!(list.apps.len(), 1);
    assert_eq!(list.apps[0].name, "Team Fortress 2");
    assert_eq!(list.apps[0].last_modified, 1600000000);
    assert_eq!(list.apps[0].price_change_number, 7);
}

#[test]
fn missing_response_is_deserialization_error() {
    let j = obj(vec![("result", Json::Null)]);
    assert!(matches!(app_list_from_envelope(j), Err(ErrorHandle::Deserialization(_))));
    assert!(matches!(unwrap_envelope(Json::Array(vec![])), Err(ErrorHandle::Deserialization(_))));
}

#[test]
fn unwrap_takes_the_response_member() {
    let j = obj(vec![("other", Json::Bool(false)), ("response", Json::UInt(5))]);
    assert!(matches!(unwrap_envelope(j), Ok(Json::UInt(5))));
}

#[test]
fn out_of_range_appid_is_rejected() {
    assert!(read_app(&app_json(u32::MAX as u64, "max")).is_some());
    assert!(read_app(&app_json(u32::MAX as u64 + 1, "too big")).is_none());
    let negative = obj(vec![
        ("appid", Json::NegInt(-1)),
        ("name", Json::Str("n".to_string())),
        ("last_modified", Json::UInt(0)),
        ("price_change_number", Json::UInt(0)),
    ]);
    assert!(read_app(&negative).is_none());
}

#[test]
fn wrong_member_type_is_rejected() {
    let payload = obj(vec![
        ("apps", Json::Array(vec![app_json(1, "a")])),
        ("have_more_results", Json::Str("yes".to_string())),
        ("last_appid", Json::UInt(1)),
    ]);
    assert!(matches!(
        app_list_from_envelope(obj(vec![("response", payload)])),
        Err(ErrorHandle::Deserialization(_))
    ));
}

#[test]
fn first_member_of_a_name_wins() {
    let fields = vec![
        ("k".to_string(), Json::UInt(1)),
        ("k".to_string(), Json::UInt(2)),
    ];
    assert!(matches!(find_field(&fields, "k"), Some(Json::UInt(1))));
    assert!(find_field(&fields, "j").is_none());
}

#[test]
fn transport_failure_has_no_status() {
    let r = execute(Err("connection refused".to_string()));
    assert!(matches!(r, Err(ErrorHandle::Transport { status: None, message }) if message == "connection refused"));
}

#[test]
fn non_success_status_is_transport_error() {
    let r = execute(Ok((404, Ok(Json::Null))));
    assert!(matches!(r, Err(ErrorHandle::Transport { status: Some(404), message }) if message == "HTTP status 404"));
    let r = execute(Ok((500, Err("bad".to_string()))));
    assert!(matches!(r, Err(ErrorHandle::Transport { status: Some(500), .. })));
}

#[test]
fn unparsable_body_is_deserialization_error() {
    let r = execute(Ok((200, Err("expected value at line 1 column 1".to_string()))));
    assert!(matches!(r, Err(ErrorHandle::Deserialization(m)) if m == "expected value at line 1 column 1"));
}

#[test]
fn success_status_passes_body() {
    assert!(matches!(execute(Ok((204, Ok(Json::Bool(true))))), Ok(Json::Bool(true))));
}

#[test]
fn known_app_outcome_succeeds() {
    let list = sample_list();
    let r = Steam::finish_store_app_list(Ok((200, Ok(app_list_to_envelope(&list)))));
    assert_eq!(r, Ok(list));
}

#[test]
fn unknown_app_outcome_is_tagged_error() {
    let r = Steam::finish_store_app_list(Ok((404, Ok(obj(vec![("response", obj(vec![]))])))));
    assert!(matches!(
        r,
        Err(StoreServiceError::GetAppList(ErrorHandle::Transport { status: Some(404), .. }))
    ));
    let r = Steam::finish_store_app_list(Ok((200, Ok(obj(vec![("response", obj(vec![]))])))));
    assert!(matches!(r, Err(StoreServiceError::GetAppList(ErrorHandle::Deserialization(_)))));
    let r = Steam::finish_store_app_list(Err("timed out".to_string()));
    assert!(matches!(r, Err(StoreServiceError::GetAppList(ErrorHandle::Transport { status: None, .. }))));
}

#[test]
fn request_url_joins_parts() {
    assert_eq!(request_url("https://h", "I", "E", "2", "?key=k"), "https://h/I/E/v2/?key=k");
}

#[test]
fn classifier_tags_endpoint() {
    let e = ErrorHandle::Deserialization("m".to_string());
    assert_eq!(e.clone().into_get_app_list(), StoreServiceError::GetAppList(e));
}
