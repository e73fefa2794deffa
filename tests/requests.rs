use consulkv::kv::{delete_request, keys_request, read_raw_request, read_request, set_json_request, set_request};
use consulkv::request::{
    BuildError, DeleteKeyRequestBuilder, Method, ReadKeyRequestBuilder, ReadKeysRequestBuilder,
    SetKeyRequestBuilder,
};
use consulkv::response::ClientError;

#[test]
fn build_without_key_fails() {
    let r = ReadKeyRequestBuilder::default().recurse(true).build();
    assert_eq!(r.unwrap_err(), BuildError::MissingKey);
    let r = SetKeyRequestBuilder::default().value(vec![1, 2]).build();
    assert_eq!(r.unwrap_err(), BuildError::MissingKey);
}

#[test]
fn build_with_key_sets_path_and_params() {
    let r = ReadKeyRequestBuilder::default().key("a/b").dc("dc1").recurse(true).build().unwrap();
    assert_eq!(r.method, Method::Get);
    assert_eq!(r.path, "/v1/kv/a/b");
    assert_eq!(r.params.dc.as_deref(), Some("dc1"));
    assert!(r.params.recurse);
    assert!(!r.params.raw);
    assert!(!r.params.keys);
    assert_eq!(r.body, None);
}

#[test]
fn read_request_without_overrides() {
    let r = read_request("test", None);
    assert_eq!(r.method, Method::Get);
    assert_eq!(r.path, "/v1/kv/test");
    assert!(!r.params.recurse);
    assert_eq!(r.params.dc, None);
    assert_eq!(r.body, None);
}

#[test]
fn read_request_key_overrides_builder_key() {
    let b = ReadKeyRequestBuilder::default().key("other").ns("team");
    let r = read_request("test", Some(b));
    assert_eq!(r.path, "/v1/kv/test");
    assert_eq!(r.params.ns.as_deref(), Some("team"));
}

#[test]
fn keys_request_lists_keys() {
    let r = keys_request("", None);
    assert_eq!(r.method, Method::Get);
    assert_eq!(r.path, "/v1/kv/");
    assert!(r.params.keys);
    let r = keys_request("app/", Some(ReadKeysRequestBuilder::default().separator("/")));
    assert!(r.params.keys);
    assert_eq!(r.params.separator.as_deref(), Some("/"));
}

#[test]
fn read_raw_request_is_raw() {
    let r = read_raw_request("k", None);
    assert_eq!(r.method, Method::Get);
    assert_eq!(r.path, "/v1/kv/k");
    assert!(r.params.raw);
}

#[test]
fn delete_request_carries_overrides() {
    let r = delete_request("k", None);
    assert_eq!(r.method, Method::Delete);
    assert_eq!(r.path, "/v1/kv/k");
    assert!(!r.params.recurse);
    let r = delete_request("k", Some(DeleteKeyRequestBuilder::default().recurse(true).cas(4)));
    assert!(r.params.recurse);
    assert_eq!(r.params.cas, Some(4));
}

#[test]
fn set_request_value_overrides_builder_value() {
    let b = SetKeyRequestBuilder::default().value(vec![9]).flags(3);
    let r = set_request("k", b"test".to_vec(), Some(b));
    assert_eq!(r.method, Method::Put);
    assert_eq!(r.path, "/v1/kv/k");
    assert_eq!(r.body, Some(b"test".to_vec()));
    assert_eq!(r.params.flags, Some(3));
}

#[test]
fn set_json_request_writes_json_text() {
    let mut m = serde_json::Map::new();
    m.insert("field".to_string(), serde_json::Value::String("test".to_string()));
    let r = set_json_request("k", &serde_json::Value::Object(m), None).unwrap();
    assert_eq!(r.method, Method::Put);
    assert_eq!(r.body, Some(br#"{"field":"test"}"#.to_vec()));
}

#[test]
fn set_json_request_error_variant_is_serialize() {
    // A value serializes whenever it is a `serde_json::Value`; the error
    // variant is only built from a failed serialization.
    let r = set_json_request("k", &serde_json::Value::Null, None);
    assert!(!matches!(r, Err(ClientError::JsonSerializeError { .. })));
    assert_eq!(r.unwrap().body, Some(b"null".to_vec()));
}
