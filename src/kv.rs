//! The key/value operations: each builds its request, hands it to the
//! caller's transport, and decodes what comes back.

use vstd::prelude::*;
use vstd::pervasive::unreached;
use crate::request::{
    kv_path, no_params, DeleteKeyRequestBuilder, Method, QueryParams, ReadKeyRequestBuilder,
    ReadKeysRequestBuilder, ReadRawKeyRequestBuilder, Request, RequestView, SetKeyRequestBuilder,
};
use crate::response::{
    json_pair_from, json_pair_outcome, json_text, json_text_of, json_value_from, json_value_outcome,
    ApiResponse, ClientError, GenericKVPair, KVPair,
};

verus! {

/// A connection to the store: sends a request and decodes the store's
/// answer into the payload that the endpoint returns.
///
/// Each `answers_*` predicate says that a result is what this connection
/// returned for a request. A generic caller knows nothing more of it; an
/// implementation that does not refine it admits every result.
pub trait Client {
    closed spec fn answers_flag(
        &self,
        req: RequestView,
        r: Result<ApiResponse<bool>, ClientError>,
    ) -> bool {
        true
    }

    closed spec fn answers_keys(
        &self,
        req: RequestView,
        r: Result<ApiResponse<Vec<String>>, ClientError>,
    ) -> bool {
        true
    }

    closed spec fn answers_pairs(
        &self,
        req: RequestView,
        r: Result<ApiResponse<Vec<KVPair>>, ClientError>,
    ) -> bool {
        true
    }

    closed spec fn answers_raw(
        &self,
        req: RequestView,
        r: Result<ApiResponse<Vec<u8>>, ClientError>,
    ) -> bool {
        true
    }

    /// Sends a request whose answer is a success flag.
    fn exec_flag(&self, req: &Request) -> (r: Result<ApiResponse<bool>, ClientError>)
        ensures
            self.answers_flag(req@, r),
    ;

    /// Sends a request whose answer is a list of key names.
    fn exec_keys(&self, req: &Request) -> (r: Result<ApiResponse<Vec<String>>, ClientError>)
        ensures
            self.answers_keys(req@, r),
    ;

    /// Sends a request whose answer is a list of stored pairs.
    fn exec_pairs(&self, req: &Request) -> (r: Result<ApiResponse<Vec<KVPair>>, ClientError>)
        ensures
            self.answers_pairs(req@, r),
    ;

    /// Sends a request whose answer is the bare stored bytes.
    fn exec_raw(&self, req: &Request) -> (r: Result<ApiResponse<Vec<u8>>, ClientError>)
        ensures
            self.answers_raw(req@, r),
    ;
}

/// The parameters of a delete: the caller's overrides, or none.
pub open spec fn delete_params(opts: Option<DeleteKeyRequestBuilder>) -> QueryParams {
    match opts {
        Some(b) => b.params(),
        None => no_params(),
    }
}

/// The request that `delete` sends.
pub open spec fn delete_view(key: Seq<char>, opts: Option<DeleteKeyRequestBuilder>) -> RequestView {
    RequestView { method: Method::Delete, path: kv_path(key), params: delete_params(opts), body: None }
}

/// The parameters of a key listing: the caller's overrides, or none.
pub open spec fn keys_params(opts: Option<ReadKeysRequestBuilder>) -> QueryParams {
    match opts {
        Some(b) => b.params(),
        None => QueryParams { keys: true, ..no_params() },
    }
}

/// The request that `keys` sends.
pub open spec fn keys_view(path: Seq<char>, opts: Option<ReadKeysRequestBuilder>) -> RequestView {
    RequestView { method: Method::Get, path: kv_path(path), params: keys_params(opts), body: None }
}

/// The parameters of a read: the caller's overrides, or none.
pub open spec fn read_params(opts: Option<ReadKeyRequestBuilder>) -> QueryParams {
    match opts {
        Some(b) => b.params(),
        None => no_params(),
    }
}

/// The request that `read` sends.
pub open spec fn read_view(key: Seq<char>, opts: Option<ReadKeyRequestBuilder>) -> RequestView {
    RequestView { method: Method::Get, path: kv_path(key), params: read_params(opts), body: None }
}

/// The parameters of a bare read: the caller's overrides, or none.
pub open spec fn read_raw_params(opts: Option<ReadRawKeyRequestBuilder>) -> QueryParams {
    match opts {
        Some(b) => b.params(),
        None => QueryParams { raw: true, ..no_params() },
    }
}

/// The request that `read_raw` sends.
pub open spec fn read_raw_view(key: Seq<char>, opts: Option<ReadRawKeyRequestBuilder>) -> RequestView {
    RequestView { method: Method::Get, path: kv_path(key), params: read_raw_params(opts), body: None }
}

/// The parameters of a write: the caller's overrides, or none.
pub open spec fn set_params(opts: Option<SetKeyRequestBuilder>) -> QueryParams {
    match opts {
        Some(b) => b.params(),
        None => no_params(),
    }
}

/// The request that `set` sends.
pub open spec fn set_view(key: Seq<char>, value: Seq<u8>, opts: Option<SetKeyRequestBuilder>) -> RequestView {
    RequestView { method: Method::Put, path: kv_path(key), params: set_params(opts), body: Some(value) }
}

/// The request of a delete of `key`.
pub fn delete_request(key: &str, opts: Option<DeleteKeyRequestBuilder>) -> (r: Request)
    ensures
        r@ == delete_view(key@, opts),
{
    let b = match opts {
        Some(b) => b,
        None => DeleteKeyRequestBuilder::default(),
    };
    match b.key(key).build() {
        Ok(req) => req,
        Err(_) => unreached(),
    }
}

/// The request that lists the key names below `path`.
pub fn keys_request(path: &str, opts: Option<ReadKeysRequestBuilder>) -> (r: Request)
    ensures
        r@ == keys_view(path@, opts),
{
    let b = match opts {
        Some(b) => b,
        None => ReadKeysRequestBuilder::default(),
    };
    match b.key(path).build() {
        Ok(req) => req,
        Err(_) => unreached(),
    }
}

/// The request that reads the pairs stored at `key`.
pub fn read_request(key: &str, opts: Option<ReadKeyRequestBuilder>) -> (r: Request)
    ensures
        r@ == read_view(key@, opts),
{
    let b = match opts {
        Some(b) => b,
        None => ReadKeyRequestBuilder::default(),
    };
    match b.key(key).build() {
        Ok(req) => req,
        Err(_) => unreached(),
    }
}

/// The request that reads the bare value stored at `key`.
pub fn read_raw_request(key: &str, opts: Option<ReadRawKeyRequestBuilder>) -> (r: Request)
    ensures
        r@ == read_raw_view(key@, opts),
{
    let b = match opts {
        Some(b) => b,
        None => ReadRawKeyRequestBuilder::default(),
    };
    match b.key(key).build() {
        Ok(req) => req,
        Err(_) => unreached(),
    }
}

/// The request that stores `value` at `key`; the key and the value always
/// override those of the builder.
pub fn set_request(key: &str, value: Vec<u8>, opts: Option<SetKeyRequestBuilder>) -> (r: Request)
    ensures
        r@ == set_view(key@, value@, opts),
{
    let b = match opts {
        Some(b) => b,
        None => SetKeyRequestBuilder::default(),
    };
    match b.key(key).value(value).build() {
        Ok(req) => req,
        Err(_) => unreached(),
    }
}

/// A copy of `s` in a vector.
fn bytes_of(s: &[u8]) -> (r: Vec<u8>)
    ensures
        r@ == s@,
{
    let mut r: Vec<u8> = Vec::new();
    let mut i: usize = 0;
    while i < s.len()
        invariant
            i <= s@.len(),
            r@ == s@.subrange(0, i as int),
        decreases s@.len() - i,
    {
        r.push(s[i]);
        i = i + 1;
        assert(r@ =~= s@.subrange(0, i as int));
    }
    assert(r@ =~= s@);
    r
}

/// Deletes `key`, or with `recurse` every key that starts with it; the
/// store's flag says whether it did.
pub fn delete<C: Client>(
    client: &C,
    key: &str,
    opts: Option<DeleteKeyRequestBuilder>,
) -> (r: Result<ApiResponse<bool>, ClientError>)
    ensures
        client.answers_flag(delete_view(key@, opts), r),
{
    let req = delete_request(key, opts);
    client.exec_flag(&req)
}

/// Lists the key names that start with `path`.
pub fn keys<C: Client>(
    client: &C,
    path: &str,
    opts: Option<ReadKeysRequestBuilder>,
) -> (r: Result<ApiResponse<Vec<String>>, ClientError>)
    ensures
        client.answers_keys(keys_view(path@, opts), r),
{
    let req = keys_request(path, opts);
    client.exec_keys(&req)
}

/// Reads the bare bytes stored at `key`.
pub fn read_raw<C: Client>(
    client: &C,
    key: &str,
    opts: Option<ReadRawKeyRequestBuilder>,
) -> (r: Result<ApiResponse<Vec<u8>>, ClientError>)
    ensures
        client.answers_raw(read_raw_view(key@, opts), r),
{
    let req = read_raw_request(key, opts);
    client.exec_raw(&req)
}

/// Reads the pairs stored at `key`: none, one, or with `recurse` every pair
/// whose key starts with `key`.
pub fn read<C: Client>(
    client: &C,
    key: &str,
    opts: Option<ReadKeyRequestBuilder>,
) -> (r: Result<ApiResponse<Vec<KVPair>>, ClientError>)
    ensures
        client.answers_pairs(read_view(key@, opts), r),
{
    let req = read_request(key, opts);
    client.exec_pairs(&req)
}

/// Reads the pairs stored at `key` and decodes the value of the last one as
/// JSON (see `json_pair_from`).
pub fn read_json<C: Client>(
    client: &C,
    key: &str,
    opts: Option<ReadKeyRequestBuilder>,
) -> (r: Result<ApiResponse<GenericKVPair<serde_json::Value>>, ClientError>)
    ensures
        exists|a: Result<ApiResponse<Vec<KVPair>>, ClientError>|
            #[trigger] client.answers_pairs(read_view(key@, opts), a) && json_read_outcome(a, r),
{
    let req = read_request(key, opts);
    let a = client.exec_pairs(&req);
    let ghost answer = a;
    let r = json_read(a);
    assert(client.answers_pairs(read_view(key@, opts), answer) && json_read_outcome(answer, r));
    r
}

/// Reads the bare bytes stored at `key` and decodes them as JSON (see
/// `json_value_from`).
pub fn read_json_raw<C: Client>(
    client: &C,
    key: &str,
    opts: Option<ReadRawKeyRequestBuilder>,
) -> (r: Result<ApiResponse<serde_json::Value>, ClientError>)
    ensures
        exists|a: Result<ApiResponse<Vec<u8>>, ClientError>|
            #[trigger] client.answers_raw(read_raw_view(key@, opts), a) && json_raw_read_outcome(
                a,
                r,
            ),
{
    let req = read_raw_request(key, opts);
    let a = client.exec_raw(&req);
    let ghost answer = a;
    let r = json_raw_read(a);
    assert(client.answers_raw(read_raw_view(key@, opts), answer) && json_raw_read_outcome(
        answer,
        r,
    ));
    r
}

/// Stores `value` at `key`; the store's flag says whether it did.
pub fn set<C: Client>(
    client: &C,
    key: &str,
    value: &[u8],
    opts: Option<SetKeyRequestBuilder>,
) -> (r: Result<ApiResponse<bool>, ClientError>)
    ensures
        client.answers_flag(set_view(key@, value@, opts), r),
{
    let req = set_request(key, bytes_of(value), opts);
    client.exec_flag(&req)
}

/// What a JSON read returns for the transport's answer `a`: its error
/// unchanged, else the decoding of its pairs.
pub open spec fn json_read_outcome(
    a: Result<ApiResponse<Vec<KVPair>>, ClientError>,
    r: Result<ApiResponse<GenericKVPair<serde_json::Value>>, ClientError>,
) -> bool {
    match a {
        Err(e) => r == Err::<ApiResponse<GenericKVPair<serde_json::Value>>, ClientError>(e),
        Ok(res) => json_pair_outcome(res, r),
    }
}

/// What a bare JSON read returns for the transport's answer `a`: its error
/// unchanged, else the decoding of its bytes.
pub open spec fn json_raw_read_outcome(
    a: Result<ApiResponse<Vec<u8>>, ClientError>,
    r: Result<ApiResponse<serde_json::Value>, ClientError>,
) -> bool {
    match a {
        Err(e) => r == Err::<ApiResponse<serde_json::Value>, ClientError>(e),
        Ok(res) => json_value_outcome(res, r),
    }
}

/// The result of a JSON read from the transport's answer: its error
/// unchanged, else the last pair decoded (see `json_pair_from`).
pub fn json_read(a: Result<ApiResponse<Vec<KVPair>>, ClientError>) -> (r: Result<
    ApiResponse<GenericKVPair<serde_json::Value>>,
    ClientError,
>)
    ensures
        json_read_outcome(a, r),
{
    match a {
        Err(e) => Err(e),
        Ok(res) => json_pair_from(res),
    }
}

/// The result of a bare JSON read from the transport's answer: its error
/// unchanged, else the bytes decoded (see `json_value_from`).
pub fn json_raw_read(a: Result<ApiResponse<Vec<u8>>, ClientError>) -> (r: Result<
    ApiResponse<serde_json::Value>,
    ClientError,
>)
    ensures
        json_raw_read_outcome(a, r),
{
    match a {
        Err(e) => Err(e),
        Ok(res) => json_value_from(res),
    }
}

/// The request that stores the JSON text of `value` at `key`. A
/// `serde_json::Value` always has a JSON text, so this always succeeds;
/// a failed write would give `JsonSerializeError`.
pub fn set_json_request(
    key: &str,
    value: &serde_json::Value,
    opts: Option<SetKeyRequestBuilder>,
) -> (r: Result<Request, ClientError>)
    ensures
        r is Ok,
        r is Ok ==> r->Ok_0@ == set_view(key@, json_text_of(*value), opts),
{
    match json_text(value) {
        Err(e) => Err(ClientError::JsonSerializeError { source: e }),
        Ok(bytes) => Ok(set_request(key, bytes, opts)),
    }
}

/// Stores the JSON text of `value` at `key`: the request is that of `set`
/// with those bytes, and the store's answer is returned unchanged.
pub fn set_json<C: Client>(
    client: &C,
    key: &str,
    value: &serde_json::Value,
    opts: Option<SetKeyRequestBuilder>,
) -> (r: Result<ApiResponse<bool>, ClientError>)
    ensures
        client.answers_flag(set_view(key@, json_text_of(*value), opts), r),
{
    match set_json_request(key, value, opts) {
        Err(e) => Err(e),
        Ok(req) => client.exec_flag(&req),
    }
}

} // verus!
