//! Response envelopes, stored pairs, errors, and the decoding of JSON
//! payloads.

use vstd::prelude::*;

verus! {

/// `serde_json::Value`, a parsed JSON document, carried through opaquely.
#[verifier::external_type_specification]
#[verifier::external_body]
pub struct ExJsonValue(serde_json::Value);

/// `serde_json::Error`, the reason a JSON parse or write failed, carried
/// through opaquely.
#[verifier::external_type_specification]
#[verifier::external_body]
pub struct ExJsonError(serde_json::Error);

/// A pair stored in the key/value store, with the metadata the store keeps
/// for it.
#[derive(Clone, Debug, PartialEq, Eq)]
pub struct KVPair {
    pub create_index: u64,
    pub flags: u64,
    pub key: String,
    pub lock_index: u64,
    pub modify_index: u64,
    pub namespace: Option<String>,
    pub session: Option<String>,
    /// The stored bytes, if any were stored.
    pub value: Option<Vec<u8>>,
}

/// A stored pair whose value has been decoded into a `T`.
#[derive(Clone, Debug)]
pub struct GenericKVPair<T> {
    pub create_index: u64,
    pub flags: u64,
    pub key: String,
    pub lock_index: u64,
    pub modify_index: u64,
    pub namespace: Option<String>,
    pub session: Option<String>,
    pub value: T,
}

/// What the store says about how it answered a request.
#[derive(Clone, Debug, PartialEq, Eq)]
pub struct ResponseMeta {
    /// Whether the answer came from the agent's cache.
    pub cache: Option<String>,
    pub content_hash: Option<String>,
    pub default_acl_policy: Option<String>,
    /// The store's consistency index when it answered.
    pub index: Option<String>,
    pub known_leader: Option<String>,
    pub last_contact: Option<String>,
    pub query_backend: Option<String>,
}

/// A payload together with the store's metadata on it.
#[derive(Clone, Debug)]
pub struct ApiResponse<T> {
    pub response: T,
    pub meta: ResponseMeta,
}

/// The ways in which a call can fail.
#[derive(Debug)]
pub enum ClientError {
    /// The store answered with a status other than success.
    ApiError { code: u16, message: Option<String> },
    /// The request could not be sent or its answer not received.
    TransportError { reason: String },
    /// The store's answer could not be decoded.
    ResponseParseError { reason: String },
    /// A typed read found no value to decode.
    EmptyResponseError,
    /// The stored bytes are not JSON of the requested shape.
    JsonDeserializeError { source: serde_json::Error },
    /// The value could not be written as JSON.
    JsonSerializeError { source: serde_json::Error },
}

/// The JSON value that `b` parses to, or `None` where `b` is not JSON text.
pub uninterp spec fn parsed_json(b: Seq<u8>) -> Option<serde_json::Value>;

/// Relies on `serde_json::from_slice::<serde_json::Value>`: it succeeds on JSON
/// text alone, and its value depends on the bytes alone.
#[verifier::external_body]
fn parse_json(b: &[u8]) -> (r: Result<serde_json::Value, serde_json::Error>)
    ensures
        r is Ok <==> parsed_json(b@) is Some,
        r is Ok ==> parsed_json(b@) == Some(r->Ok_0),
{
    serde_json::from_slice(b)
}

/// The JSON text that `serde_json` writes for `v`.
pub uninterp spec fn json_text_of(v: serde_json::Value) -> Seq<u8>;

/// Relies on `serde_json::to_vec` on a `serde_json::Value`: it writes the
/// value's JSON text, which depends on the value alone, and it cannot fail,
/// since a `Value`'s map keys are strings and a `Vec` takes any write.
#[verifier::external_body]
pub(crate) fn json_text(v: &serde_json::Value) -> (r: Result<Vec<u8>, serde_json::Error>)
    ensures
        r is Ok,
        r is Ok ==> r->Ok_0@ == json_text_of(*v),
{
    serde_json::to_vec(v)
}

/// `g` holds the key and metadata of `kv`.
pub open spec fn same_metadata<T>(g: GenericKVPair<T>, kv: KVPair) -> bool {
    &&& g.create_index == kv.create_index
    &&& g.flags == kv.flags
    &&& g.key == kv.key
    &&& g.lock_index == kv.lock_index
    &&& g.modify_index == kv.modify_index
    &&& g.namespace == kv.namespace
    &&& g.session == kv.session
}

/// The bytes that a JSON read of `pairs` decodes: the value of the last pair.
pub open spec fn json_payload(pairs: Seq<KVPair>) -> Option<Seq<u8>> {
    if pairs.len() == 0 {
        None
    } else {
        match pairs.last().value {
            Some(v) => Some(v@),
            None => None,
        }
    }
}

/// `r` is the JSON decoding of the pairs in `res`: see `json_pair_from`.
pub open spec fn json_pair_outcome(
    res: ApiResponse<Vec<KVPair>>,
    r: Result<ApiResponse<GenericKVPair<serde_json::Value>>, ClientError>,
) -> bool {
    &&& json_payload(res.response@) is None ==> (r matches Err(ClientError::EmptyResponseError))
    &&& json_payload(res.response@) is Some ==> {
        let b = json_payload(res.response@)->0;
        &&& r is Ok <==> parsed_json(b) is Some
        &&& r is Err ==> r->Err_0 is JsonDeserializeError
        &&& r is Ok ==> {
            &&& Some(r->Ok_0.response.value) == parsed_json(b)
            &&& same_metadata(r->Ok_0.response, res.response@.last())
            &&& r->Ok_0.meta == res.meta
        }
    }
}

/// `r` is the JSON decoding of the bytes in `res`: see `json_value_from`.
pub open spec fn json_value_outcome(
    res: ApiResponse<Vec<u8>>,
    r: Result<ApiResponse<serde_json::Value>, ClientError>,
) -> bool {
    &&& res.response@.len() == 0 ==> (r matches Err(ClientError::EmptyResponseError))
    &&& res.response@.len() > 0 ==> {
        &&& r is Ok <==> parsed_json(res.response@) is Some
        &&& r is Err ==> r->Err_0 is JsonDeserializeError
        &&& r is Ok ==> {
            &&& Some(r->Ok_0.response) == parsed_json(res.response@)
            &&& r->Ok_0.meta == res.meta
        }
    }
}

/// Decodes the last of the pairs read at a key as JSON, keeping its
/// metadata and the envelope's.
///
/// No pairs, or a last pair without a value, give `EmptyResponseError`;
/// bytes that are not JSON give `JsonDeserializeError`.
pub fn json_pair_from(res: ApiResponse<Vec<KVPair>>) -> (r: Result<
    ApiResponse<GenericKVPair<serde_json::Value>>,
    ClientError,
>)
    ensures
        json_pair_outcome(res, r),
{
    let mut pairs = res.response;
    let meta = res.meta;
    match pairs.pop() {
        None => Err(ClientError::EmptyResponseError),
        Some(kv) => match kv.value {
            None => Err(ClientError::EmptyResponseError),
            Some(bytes) => match parse_json(bytes.as_slice()) {
                Err(e) => Err(ClientError::JsonDeserializeError { source: e }),
                Ok(v) => Ok(
                    ApiResponse {
                        response: GenericKVPair {
                            create_index: kv.create_index,
                            flags: kv.flags,
                            key: kv.key,
                            lock_index: kv.lock_index,
                            modify_index: kv.modify_index,
                            namespace: kv.namespace,
                            session: kv.session,
                            value: v,
                        },
                        meta,
                    },
                ),
            },
        },
    }
}

/// Decodes a bare value read at a key as JSON, keeping the envelope's
/// metadata.
///
/// An empty value gives `EmptyResponseError`; bytes that are not JSON give
/// `JsonDeserializeError`.
pub fn json_value_from(res: ApiResponse<Vec<u8>>) -> (r: Result<
    ApiResponse<serde_json::Value>,
    ClientError,
>)
    ensures
        json_value_outcome(res, r),
{
    if res.response.len() == 0 {
        Err(ClientError::EmptyResponseError)
    } else {
        match parse_json(res.response.as_slice()) {
            Err(e) => Err(ClientError::JsonDeserializeError { source: e }),
            Ok(v) => Ok(ApiResponse { response: v, meta: res.meta }),
        }
    }
}

} // verus!
