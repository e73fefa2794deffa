use consulkv::kv;
use consulkv::kv::Client;
use consulkv::request::{Method, ReadKeyRequestBuilder, Request};
use consulkv::response::{ApiResponse, ClientError, KVPair, ResponseMeta};
use std::cell::RefCell;
use std::collections::BTreeMap;

/// A store held in memory, answering requests as the remote store does.
struct MemStore {
    data: RefCell<BTreeMap<String, Vec<u8>>>,
}

impl MemStore {
    fn new() -> MemStore {
        MemStore { data: RefCell::new(BTreeMap::new()) }
    }
}

fn meta() -> ResponseMeta {
    ResponseMeta {
        cache: None,
        content_hash: None,
        default_acl_policy: None,
        index: Some("7".to_string()),
        known_leader: Some("true".to_string()),
        last_contact: None,
        query_backend: None,
    }
}

fn key_of(req: &Request) -> String {
    req.path.strip_prefix("/v1/kv/").expect("key/value path").to_string()
}

fn pair(key: &str, value: &[u8]) -> KVPair {
    KVPair {
        create_index: 1,
        flags: 0,
        key: key.to_string(),
        lock_index: 0,
        modify_index: 2,
        namespace: None,
        session: None,
        value: Some(value.to_vec()),
    }
}

impl Client for MemStore {
    fn exec_flag(&self, req: &Request) -> Result<ApiResponse<bool>, ClientError> {
        let key = key_of(req);
        let mut data = self.data.borrow_mut();
        match req.method {
            Method::Put => {
                data.insert(key, req.body.clone().unwrap_or_default());
            }
            Method::Delete => {
                if req.params.recurse {
                    data.retain(|k, _| !k.starts_with(&key));
                } else {
                    data.remove(&key);
                }
            }
            Method::Get => return Err(ClientError::ApiError { code: 405, message: None }),
        }
        Ok(ApiResponse { response: true, meta: meta() })
    }

    fn exec_keys(&self, req: &Request) -> Result<ApiResponse<Vec<String>>, ClientError> {
        let key = key_of(req);
        let names = self.data.borrow().keys().filter(|k| k.starts_with(&key)).cloned().collect();
        Ok(ApiResponse { response: names, meta: meta() })
    }

    fn exec_pairs(&self, req: &Request) -> Result<ApiResponse<Vec<KVPair>>, ClientError> {
        let key = key_of(req);
        let pairs = self
            .data
            .borrow()
            .iter()
            .filter(|(k, _)| if req.params.recurse { k.starts_with(&key) } else { **k == key })
            .map(|(k, v)| pair(k, v))
            .collect();
        Ok(ApiResponse { response: pairs, meta: meta() })
    }

    fn exec_raw(&self, req: &Request) -> Result<ApiResponse<Vec<u8>>, ClientError> {
        match self.data.borrow().get(&key_of(req)) {
            Some(v) => Ok(ApiResponse { response: v.clone(), meta: meta() }),
            None => Err(ClientError::ApiError { code: 404, message: None }),
        }
    }
}

fn test_object() -> serde_json::Value {
    let mut m = serde_json::Map::new();
    m.insert("field".to_string(), serde_json::Value::String("test".to_string()));
    serde_json::Value::Object(m)
}

fn read_response_to_value(mut response: Vec<KVPair>) -> Vec<u8> {
    response.pop().and_then(|v| v.value).unwrap()
}

#[test]
fn test() {
    let client = MemStore::new();
    let key = "test";

    let res = kv::set(&client, key, b"test", None);
    assert!(res.is_ok());

    let res = kv::keys(&client, "", None);
    assert!(res.is_ok());

    let res = kv::read(&client, key, None);
    assert!(res.is_ok());

    let res = kv::read(&client, key, Some(ReadKeyRequestBuilder::default().recurse(true)));
    assert!(res.is_ok());

    let res = kv::read_raw(&client, key, None);
    assert!(res.is_ok());

    let res = kv::delete(&client, key, None);
    assert!(res.is_ok());

    let obj = test_object();
    let res = kv::set_json(&client, key, &obj, None);
    assert!(res.is_ok());
    let res = kv::read_json(&client, key, None);
    assert!(res.is_ok());
    assert_eq!(obj["field"], res.unwrap().response.value["field"]);

    let res = kv::set(&client, key, b"test", None);
    assert!(res.is_ok());
    let res = kv::read(&client, key, None);
    assert!(res.is_ok());
    let res = res.unwrap();
    assert_eq!(res.response.len(), 1);
    let bytes: Vec<u8> = read_response_to_value(res.response);
    assert_eq!(bytes, b"test");
}

#[test]
fn set_then_read_round_trip() {
    let client = MemStore::new();
    for value in [&b""[..], &b"x"[..], &[0u8, 255, 10][..]] {
        kv::set(&client, "k", value, None).unwrap();
        let res = kv::read(&client, "k", None).unwrap();
        assert_eq!(res.response.len(), 1);
        assert_eq!(res.response[0].key, "k");
        assert_eq!(res.response[0].value.as_deref(), Some(value));
    }
}

#[test]
fn json_round_trip() {
    let client = MemStore::new();
    let mut m = serde_json::Map::new();
    m.insert("field".to_string(), serde_json::Value::String("test".to_string()));
    m.insert("n".to_string(), serde_json::Value::from(-3));
    m.insert("list".to_string(), serde_json::Value::Array(vec![true.into(), serde_json::Value::Null]));
    let obj = serde_json::Value::Object(m);
    kv::set_json(&client, "obj", &obj, None).unwrap();
    let res = kv::read_json(&client, "obj", None).unwrap();
    assert_eq!(res.response.value, obj);
    assert_eq!(res.response.key, "obj");
    let raw = kv::read_json_raw(&client, "obj", None).unwrap();
    assert_eq!(raw.response, obj);
}

#[test]
fn read_json_of_missing_key_is_empty_error() {
    let client = MemStore::new();
    let res = kv::read_json(&client, "missing", None);
    assert!(matches!(res, Err(ClientError::EmptyResponseError)));
}

#[test]
fn read_json_of_non_json_is_deserialize_error() {
    let client = MemStore::new();
    kv::set(&client, "k", b"test", None).unwrap();
    let res = kv::read_json(&client, "k", None);
    assert!(matches!(res, Err(ClientError::JsonDeserializeError { .. })));
    let res = kv::read_json_raw(&client, "k", None);
    assert!(matches!(res, Err(ClientError::JsonDeserializeError { .. })));
}

#[test]
fn transport_error_is_passed_on() {
    let client = MemStore::new();
    let res = kv::read_json_raw(&client, "missing", None);
    assert!(matches!(res, Err(ClientError::ApiError { code: 404, .. })));
}

#[test]
fn recursive_read_counts_prefixed_keys() {
    let client = MemStore::new();
    for k in ["app/a", "app/b", "app/c/d", "other"] {
        kv::set(&client, k, b"v", None).unwrap();
    }
    let res = kv::read(&client, "app/", Some(ReadKeyRequestBuilder::default().recurse(true))).unwrap();
    assert_eq!(res.response.len(), 3);
    let res = kv::read(&client, "app/", None).unwrap();
    assert_eq!(res.response.len(), 0);
}

#[test]
fn delete_of_missing_key_succeeds() {
    let client = MemStore::new();
    let res = kv::delete(&client, "missing", None).unwrap();
    assert!(res.response);
}

#[test]
fn keys_of_empty_path_cover_store() {
    let client = MemStore::new();
    for k in ["b", "a", "c/d"] {
        kv::set(&client, k, b"v", None).unwrap();
    }
    let res = kv::keys(&client, "", None).unwrap();
    assert_eq!(res.response, vec!["a".to_string(), "b".to_string(), "c/d".to_string()]);
}

#[test]
fn set_read_delete_read_scenario() {
    let client = MemStore::new();
    kv::set(&client, "test", b"test", None).unwrap();
    let res = kv::read(&client, "test", None).unwrap();
    assert_eq!(res.response.len(), 1);
    assert_eq!(res.response[0].value.as_deref(), Some(&b"test"[..]));
    let res = kv::delete(&client, "test", None).unwrap();
    assert!(res.response);
    let res = kv::read(&client, "test", None).unwrap();
    assert!(res.response.is_empty());
}

#[test]
fn set_json_sends_json_text() {
    let client = MemStore::new();
    kv::set_json(&client, "obj", &test_object(), None).unwrap();
    let raw = kv::read_raw(&client, "obj", None).unwrap();
    assert_eq!(raw.response, br#"{"field":"test"}"#.to_vec());
}

#[test]
fn keys_come_in_ascending_order() {
    let client = MemStore::new();
    for k in ["zeta", "alpha", "Beta", "alpha/x"] {
        kv::set(&client, k, b"v", None).unwrap();
    }
    let res = kv::keys(&client, "", None).unwrap();
    let mut sorted = res.response.clone();
    sorted.sort();
    assert_eq!(res.response, sorted);
    assert_eq!(res.response.len(), 4);
}
