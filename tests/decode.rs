use consulkv::response::{json_pair_from, json_value_from, ApiResponse, ClientError, KVPair, ResponseMeta};

fn meta() -> ResponseMeta {
    ResponseMeta {
        cache: Some("HIT".to_string()),
        content_hash: None,
        default_acl_policy: Some("allow".to_string()),
        index: Some("12".to_string()),
        known_leader: Some("true".to_string()),
        last_contact: Some("0".to_string()),
        query_backend: None,
    }
}

fn pair(key: &str, value: Option<&[u8]>, index: u64) -> KVPair {
    KVPair {
        create_index: index,
        flags: 5,
        key: key.to_string(),
        lock_index: 1,
        modify_index: index + 1,
        namespace: Some("default".to_string()),
        session: None,
        value: value.map(|v| v.to_vec()),
    }
}

#[test]
fn json_read_of_no_pairs_is_empty_error() {
    let r = json_pair_from(ApiResponse { response: vec![], meta: meta() });
    assert!(matches!(r, Err(ClientError::EmptyResponseError)));
}

#[test]
fn json_read_of_pair_without_value_is_empty_error() {
    let r = json_pair_from(ApiResponse { response: vec![pair("k", None, 1)], meta: meta() });
    assert!(matches!(r, Err(ClientError::EmptyResponseError)));
}

#[test]
fn json_read_of_bad_bytes_is_deserialize_error() {
    let r = json_pair_from(ApiResponse { response: vec![pair("k", Some(b"{not json"), 1)], meta: meta() });
    assert!(matches!(r, Err(ClientError::JsonDeserializeError { .. })));
}

#[test]
fn json_read_keeps_metadata_and_parses_value() {
    let r = json_pair_from(ApiResponse { response: vec![pair("k", Some(br#"{"field":"test"}"#), 3)], meta: meta() })
        .unwrap();
    assert_eq!(r.response.value["field"], serde_json::Value::String("test".to_string()));
    assert_eq!(r.response.key, "k");
    assert_eq!(r.response.create_index, 3);
    assert_eq!(r.response.modify_index, 4);
    assert_eq!(r.response.lock_index, 1);
    assert_eq!(r.response.flags, 5);
    assert_eq!(r.response.namespace.as_deref(), Some("default"));
    assert_eq!(r.response.session, None);
    assert_eq!(r.meta, meta());
}

#[test]
fn json_read_takes_last_pair() {
    let pairs = vec![pair("a", Some(b"1"), 1), pair("b", Some(b"2"), 2)];
    let r = json_pair_from(ApiResponse { response: pairs, meta: meta() }).unwrap();
    assert_eq!(r.response.key, "b");
    assert_eq!(r.response.value, serde_json::Value::from(2));
}

#[test]
fn json_raw_read_of_empty_bytes_is_empty_error() {
    let r = json_value_from(ApiResponse { response: vec![], meta: meta() });
    assert!(matches!(r, Err(ClientError::EmptyResponseError)));
}

#[test]
fn json_raw_read_of_bad_bytes_is_deserialize_error() {
    let r = json_value_from(ApiResponse { response: b"[1,".to_vec(), meta: meta() });
    assert!(matches!(r, Err(ClientError::JsonDeserializeError { .. })));
}

#[test]
fn json_raw_read_parses_value() {
    let r = json_value_from(ApiResponse { response: b"[1,2]".to_vec(), meta: meta() }).unwrap();
    assert_eq!(r.response, serde_json::Value::Array(vec![1.into(), 2.into()]));
    assert_eq!(r.meta, meta());
}
