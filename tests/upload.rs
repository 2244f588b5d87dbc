use std::collections::HashMap;

use shot::api::{check_token_response, API, API_BASE, PNG_CONTENT_TYPE};
use shot::cli::KV;
use shot::config::{Auth, Config};
use shot::error::ConfigError;
use shot::metadata::MetadataMap;

fn api() -> API {
    API::new(Auth::from(("acc123".to_string(), "tok".to_string()))).unwrap()
}

#[test]
fn api_url_for_account() {
    let api = api();
    assert_eq!(api.url(), "https://api.cloudflare.com/client/v4/accounts/acc123/images/v1");
    assert_eq!(api.account_id(), "acc123");
    assert_eq!(api.token(), "tok");
    assert!(API_BASE.ends_with("/client/v4/"));
}

#[test]
fn config_builds_api() {
    let config = Config::new(Auth { account_id: "a1".to_string(), token: "t1".to_string() });
    assert_eq!(config.auth.account_id, "a1");
    let api = config.as_api().unwrap();
    assert_eq!(api.url(), "https://api.cloudflare.com/client/v4/accounts/a1/images/v1");
    let owned = config.into_api().map_err(|e: ConfigError| e).unwrap();
    assert_eq!(owned.token(), "t1");
}

#[test]
fn token_check_rejects_401() {
    let err = check_token_response(401, "{\"success\":false}".to_string()).unwrap_err();
    assert_eq!(err.response, "{\"success\":false}");
}

#[test]
fn token_check_accepts_200_with_any_body() {
    assert!(check_token_response(200, "not even json".to_string()).is_ok());
    assert!(check_token_response(204, String::new()).is_ok());
    assert!(check_token_response(299, String::new()).is_ok());
    assert!(check_token_response(300, String::new()).is_err());
    assert!(check_token_response(199, String::new()).is_err());
    assert!(check_token_response(500, String::new()).is_err());
}

#[test]
fn default_request_shape() {
    let api = api();
    let bytes = [1u8, 2, 3];
    let upload = api.upload("pic.png", &bytes);
    let req = upload.request();
    assert_eq!(req.url, "https://api.cloudflare.com/client/v4/accounts/acc123/images/v1");
    assert_eq!(req.token, "tok");
    assert_eq!(req.file_name, "pic.png");
    assert_eq!(req.file_bytes, vec![1, 2, 3]);
    assert_eq!(req.content_type, PNG_CONTENT_TYPE);
    assert_eq!(req.content_type, "image/png");
    assert_eq!(req.require_signed_urls, "false");
    assert_eq!(req.metadata, "{}");
}

#[test]
fn builder_replaces_fields() {
    let api = api();
    let first = [1u8];
    let second = [9u8, 8];
    let upload = api.upload("a.png", &first).bytes(&second).filename("b.png").require_signed_urls();
    let req = upload.request();
    assert_eq!(req.file_name, "b.png");
    assert_eq!(req.file_bytes, vec![9, 8]);
    assert_eq!(req.require_signed_urls, "true");
}

#[test]
fn same_key_twice_keeps_latter() {
    let api = api();
    let bytes = [0u8];
    let mut upload = api.upload("x.png", &bytes);
    upload.add_meta("k", "first");
    upload.add_meta("k", "second");
    let req = upload.request();
    let parsed: HashMap<String, String> = serde_json::from_str(&req.metadata).unwrap();
    assert_eq!(parsed.len(), 1);
    assert_eq!(parsed["k"], "second");
}

#[test]
fn extend_meta_from_arguments() {
    let api = api();
    let bytes = [0u8];
    let mut upload = api.upload("x.png", &bytes);
    let args = vec![
        KV::from_str("a=1").unwrap(),
        KV::from_str("b=2").unwrap(),
        KV::from_str("a=3").unwrap(),
    ];
    upload.extend_meta(&args);
    let req = upload.request();
    let parsed: HashMap<String, String> = serde_json::from_str(&req.metadata).unwrap();
    let mut expected = HashMap::new();
    expected.insert("a".to_string(), "3".to_string());
    expected.insert("b".to_string(), "2".to_string());
    assert_eq!(parsed, expected);
}

#[test]
fn metadata_map_insert_and_get() {
    let mut m = MetadataMap::new();
    assert_eq!(m.len(), 0);
    m.insert("k".to_string(), "v1".to_string());
    m.insert("other".to_string(), "x".to_string());
    m.insert("k".to_string(), "v2".to_string());
    assert_eq!(m.len(), 2);
    assert_eq!(m.get(&"k".to_string()).map(|s| s.as_str()), Some("v2"));
    assert_eq!(m.get(&"missing".to_string()), None);
    assert_eq!(m.entries().len(), 2);
}

#[test]
fn metadata_json_round_trip() {
    let mut m = MetadataMap::new();
    let pairs = [("alpha", "1"), ("quote\"key", "line\nbreak"), ("unicodé", "✓"), ("", "empty key")];
    for (k, v) in pairs {
        m.insert(k.to_string(), v.to_string());
    }
    let text = m.to_json();
    let back: HashMap<String, String> = serde_json::from_str(&text).unwrap();
    assert_eq!(back.len(), m.len());
    for (k, v) in pairs {
        assert_eq!(back[k], v);
        assert_eq!(m.get(&k.to_string()).unwrap(), v);
    }
}

#[test]
fn empty_metadata_is_empty_object() {
    assert_eq!(MetadataMap::new().to_json(), "{}");
}
