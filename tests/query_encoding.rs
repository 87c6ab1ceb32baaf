use steam_rs::query::{encode_query, escape_component, render_value, Param, ParamValue};
use steam_rs::Steam;

fn param(name: &str, value: Option<ParamValue>) -> Param {
    Param { name: name.to_string(), value }
}

#[test]
fn all_absent_gives_key_only() {
    let params = vec![
        param("include_games", None),
        param("max_results", None),
        param("have_description_language", None),
    ];
    assert_eq!(encode_query("ABC123", &params), "?key=ABC123");
}

#[test]
fn empty_parameter_list_gives_key_only() {
    assert_eq!(encode_query("k", &Vec::new()), "?key=k");
}

#[test]
fn present_values_kept_in_order() {
    let params = vec![
        param("if_modified_since", Some(ParamValue::Int(0))),
        param("have_description_language", None),
        param("include_games", Some(ParamValue::Bool(true))),
        param("include_dlc", Some(ParamValue::Bool(false))),
        param("last_appid", None),
        param("max_results", Some(ParamValue::Int(10000))),
    ];
    assert_eq!(
        encode_query("KEY", &params),
        "?key=KEY&if_modified_since=0&include_games=true&include_dlc=false&max_results=10000"
    );
}

#[test]
fn text_values_are_escaped() {
    let params = vec![param(
        "have_description_language",
        Some(ParamValue::Text("english & more".to_string())),
    )];
    assert_eq!(
        encode_query("KEY", &params),
        "?key=KEY&have_description_language=english%20%26%20more"
    );
}

#[test]
fn escape_keeps_unreserved_characters() {
    assert_eq!(escape_component("AZaz09-_.~"), "AZaz09-_.~");
    assert_eq!(escape_component(""), "");
}

#[test]
fn escape_writes_utf8_bytes_in_upper_hex() {
    assert_eq!(escape_component("é"), "%C3%A9");
    assert_eq!(escape_component("a/b?c=d"), "a%2Fb%3Fc%3Dd");
    assert_eq!(escape_component("日"), "%E6%97%A5");
    assert_eq!(escape_component("😀"), "%F0%9F%98%80");
}

#[test]
fn key_is_escaped() {
    assert_eq!(encode_query("a b", &Vec::new()), "?key=a%20b");
}

#[test]
fn values_render_as_text() {
    assert_eq!(render_value(&ParamValue::Bool(true)), "true");
    assert_eq!(render_value(&ParamValue::Bool(false)), "false");
    assert_eq!(render_value(&ParamValue::Int(0)), "0");
    assert_eq!(render_value(&ParamValue::Int(9)), "9");
    assert_eq!(render_value(&ParamValue::Int(10)), "10");
    assert_eq!(render_value(&ParamValue::Int(u64::MAX)), "18446744073709551615");
    assert_eq!(render_value(&ParamValue::Text("x y".to_string())), "x y");
}

#[test]
fn store_app_list_query_without_options() {
    let steam = Steam::new("KEY");
    let q = steam.store_app_list_query(None, None, None, None, None, None, None, None, None);
    assert_eq!(q, "?key=KEY");
}

#[test]
fn store_app_list_query_with_some_options() {
    let steam = Steam::new("KEY");
    let q = steam.store_app_list_query(
        Some(1700000000),
        Some("english".to_string()),
        Some(true),
        None,
        Some(false),
        None,
        None,
        Some(440),
        Some(u32::MAX),
    );
    assert_eq!(
        q,
        "?key=KEY&if_modified_since=1700000000&have_description_language=english\
         &include_games=true&include_software=false&last_appid=440&max_results=4294967295"
    );
}

#[test]
fn store_app_list_url_layout() {
    let steam = Steam::new("KEY");
    let url = steam.store_app_list_url(None, None, None, Some(true), None, None, None, None, Some(10));
    assert_eq!(
        url,
        "https://api.steampowered.com/IStoreService/GetAppList/v1/?key=KEY&include_dlc=true&max_results=10"
    );
}

#[test]
fn one_client_serves_independent_calls() {
    let steam = Steam::new("KEY");
    let a = steam.store_app_list_url(None, None, Some(true), None, None, None, None, None, None);
    let b = steam.store_app_list_url(None, None, None, None, None, None, Some(true), None, None);
    let a2 = steam.store_app_list_url(None, None, Some(true), None, None, None, None, None, None);
    assert_eq!(a, a2);
    assert_ne!(a, b);
    assert_eq!(steam.api_key, "KEY");
}
