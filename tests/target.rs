use consulkv::kv::{delete_request, keys_request, read_request, set_request};
use consulkv::request::{DeleteKeyRequestBuilder, ReadKeyRequestBuilder, SetKeyRequestBuilder};
use consulkv::target::request_target;

#[test]
fn target_without_params_has_no_query() {
    assert_eq!(request_target(&read_request("test", None)), b"/v1/kv/test".to_vec());
}

#[test]
fn target_escapes_key_and_values() {
    let b = ReadKeyRequestBuilder::default().dc("dc 1").recurse(true);
    let t = request_target(&read_request("a b/c", Some(b)));
    assert_eq!(String::from_utf8(t).unwrap(), "/v1/kv/a%20b/c?dc=dc%201&recurse");
}

#[test]
fn target_escapes_non_ascii_and_slash_in_values() {
    let b = ReadKeyRequestBuilder::default().separator("/").ns("é");
    let t = request_target(&read_request("é", Some(b)));
    assert_eq!(String::from_utf8(t).unwrap(), "/v1/kv/%C3%A9?ns=%C3%A9&separator=%2F");
}

#[test]
fn target_of_listing_has_keys_switch() {
    let t = request_target(&keys_request("", None));
    assert_eq!(String::from_utf8(t).unwrap(), "/v1/kv/?keys");
}

#[test]
fn target_writes_numbers_in_decimal() {
    let b = SetKeyRequestBuilder::default().cas(42).flags(0).acquire("s-1");
    let t = request_target(&set_request("k", vec![1], Some(b)));
    assert_eq!(String::from_utf8(t).unwrap(), "/v1/kv/k?acquire=s-1&cas=42&flags=0");
    let b = DeleteKeyRequestBuilder::default().cas(u64::MAX).recurse(true);
    let t = request_target(&delete_request("k", Some(b)));
    assert_eq!(String::from_utf8(t).unwrap(), "/v1/kv/k?cas=18446744073709551615&recurse");
}

#[test]
fn target_keeps_unreserved_characters() {
    let t = request_target(&read_request("A-z_0.9~", None));
    assert_eq!(String::from_utf8(t).unwrap(), "/v1/kv/A-z_0.9~");
}
