//! Request descriptors for the key/value endpoints, and their builders.

use vstd::prelude::*;
use vstd::string::StringExecFns;

verus! {

/// The HTTP method of a request.
#[derive(PartialEq, Eq, Structural, Clone, Copy, Debug)]
pub enum Method {
    Get,
    Put,
    Delete,
}

/// The query parameters of a key/value request; a `None` or `false`
/// parameter is left out of the URL.
#[derive(Clone, Debug, PartialEq, Eq)]
pub struct QueryParams {
    /// Datacenter to query.
    pub dc: Option<String>,
    /// Namespace of the key.
    pub ns: Option<String>,
    /// Act on every key that starts with the given key.
    pub recurse: bool,
    /// Return the stored value alone, without metadata.
    pub raw: bool,
    /// Return the matching key names alone.
    pub keys: bool,
    /// With `keys`, list keys only up to this separator.
    pub separator: Option<String>,
    /// Check-and-set: act only if the key's modify index equals this one.
    pub cas: Option<u64>,
    /// Opaque flags stored with the value.
    pub flags: Option<u64>,
    /// Session that acquires the key's lock.
    pub acquire: Option<String>,
    /// Session that releases the key's lock.
    pub release: Option<String>,
}

/// The parameter set with every parameter left out.
pub open spec fn no_params() -> QueryParams {
    QueryParams {
        dc: None,
        ns: None,
        recurse: false,
        raw: false,
        keys: false,
        separator: None,
        cas: None,
        flags: None,
        acquire: None,
        release: None,
    }
}

/// A finished request: what the transport sends to the store.
#[derive(Clone, Debug, PartialEq, Eq)]
pub struct Request {
    pub method: Method,
    /// The URL path, below the store's address.
    pub path: String,
    pub params: QueryParams,
    /// The request body, for writes.
    pub body: Option<Vec<u8>>,
}

/// A request with its path and body viewed as sequences.
pub struct RequestView {
    pub method: Method,
    pub path: Seq<char>,
    pub params: QueryParams,
    pub body: Option<Seq<u8>>,
}

/// A request body viewed as a sequence.
pub open spec fn opt_bytes(b: Option<Vec<u8>>) -> Option<Seq<u8>> {
    match b {
        Some(v) => Some(v@),
        None => None,
    }
}

impl View for Request {
    type V = RequestView;

    open spec fn view(&self) -> RequestView {
        RequestView {
            method: self.method,
            path: self.path@,
            params: self.params,
            body: opt_bytes(self.body),
        }
    }
}

/// The path below which the store keeps its keys.
pub open spec fn kv_prefix() -> Seq<char> {
    "/v1/kv/"@
}

/// The URL path of the given key.
pub open spec fn kv_path(key: Seq<char>) -> Seq<char> {
    kv_prefix() + key
}

/// Writes the URL path of `key`.
pub fn key_path(key: &str) -> (r: String)
    ensures
        r@ == kv_path(key@),
{
    let mut p = String::from_str("/v1/kv/");
    p.append(key);
    p
}

/// Why a builder could not produce a request.
#[derive(PartialEq, Eq, Structural, Clone, Copy, Debug)]
pub enum BuildError {
    /// No key was set.
    MissingKey,
}


/// Builder of a request that reads the pairs stored at a key, or below it.
#[derive(Clone, Debug)]
pub struct ReadKeyRequestBuilder {
    pub key: Option<String>,
    pub dc: Option<String>,
    pub ns: Option<String>,
    pub recurse: bool,
    pub separator: Option<String>,
}

impl Default for ReadKeyRequestBuilder {
    /// A builder with no key and no optional parameter.
    fn default() -> (r: Self)
        ensures
            r.key is None,
            r.params() == no_params(),
    {
        ReadKeyRequestBuilder {
            key: None,
            dc: None,
            ns: None,
            recurse: false,
            separator: None,
        }
    }
}

impl ReadKeyRequestBuilder {
    /// The query parameters of the request.
    pub open spec fn params(self) -> QueryParams {
        QueryParams { dc: self.dc, ns: self.ns, recurse: self.recurse, separator: self.separator, ..no_params() }
    }

    /// The request that this builder describes for `key`.
    pub open spec fn endpoint(self, key: Seq<char>) -> RequestView {
        RequestView { method: Method::Get, path: kv_path(key), params: self.params(), body: None }
    }

    /// Sets the key that the request is about.
    pub fn key(self, key: &str) -> (r: Self)
        ensures
            r.key is Some && r.key->0@ == key@,
            r.params() == self.params(),
    {
        ReadKeyRequestBuilder { key: Some(String::from_str(key)), ..self }
    }

    /// Sets the datacenter to query.
    pub fn dc(self, v: &str) -> (r: Self)
        ensures
            r.dc is Some && r.dc->0@ == v@,
            r.key == self.key,
            r.ns == self.ns,
            r.recurse == self.recurse,
            r.separator == self.separator,
    {
        ReadKeyRequestBuilder { dc: Some(String::from_str(v)), ..self }
    }

    /// Sets the namespace of the key.
    pub fn ns(self, v: &str) -> (r: Self)
        ensures
            r.ns is Some && r.ns->0@ == v@,
            r.key == self.key,
            r.dc == self.dc,
            r.recurse == self.recurse,
            r.separator == self.separator,
    {
        ReadKeyRequestBuilder { ns: Some(String::from_str(v)), ..self }
    }

    /// Makes the request act on every key that starts with the key.
    pub fn recurse(self, v: bool) -> (r: Self)
        ensures
            r.recurse == v,
            r.key == self.key,
            r.dc == self.dc,
            r.ns == self.ns,
            r.separator == self.separator,
    {
        ReadKeyRequestBuilder { recurse: v, ..self }
    }

    /// Lists keys only up to this separator.
    pub fn separator(self, v: &str) -> (r: Self)
        ensures
            r.separator is Some && r.separator->0@ == v@,
            r.key == self.key,
            r.dc == self.dc,
            r.ns == self.ns,
            r.recurse == self.recurse,
    {
        ReadKeyRequestBuilder { separator: Some(String::from_str(v)), ..self }
    }

    /// The finished request, or `MissingKey` where no key was set.
    pub fn build(self) -> (r: Result<Request, BuildError>)
        ensures
            self.key is None ==> r == Err::<Request, BuildError>(BuildError::MissingKey),
            self.key is Some ==> r is Ok && r->Ok_0@ == self.endpoint(self.key->0@),
    {
        match self.key {
            None => Err(BuildError::MissingKey),
            Some(k) => {
                let params = QueryParams {
                    dc: self.dc,
                    ns: self.ns,
                    recurse: self.recurse,
                    raw: false,
                    keys: false,
                    separator: self.separator,
                    cas: None,
                    flags: None,
                    acquire: None,
                    release: None,
                };
                Ok(Request { method: Method::Get, path: key_path(k.as_str()), params, body: None })
            },
        }
    }
}

/// Builder of a request that deletes a key, or every key below it.
#[derive(Clone, Debug)]
pub struct DeleteKeyRequestBuilder {
    pub key: Option<String>,
    pub cas: Option<u64>,
    pub ns: Option<String>,
    pub recurse: bool,
}

impl Default for DeleteKeyRequestBuilder {
    /// A builder with no key and no optional parameter.
    fn default() -> (r: Self)
        ensures
            r.key is None,
            r.params() == no_params(),
    {
        DeleteKeyRequestBuilder {
            key: None,
            cas: None,
            ns: None,
            recurse: false,
        }
    }
}

impl DeleteKeyRequestBuilder {
    /// The query parameters of the request.
    pub open spec fn params(self) -> QueryParams {
        QueryParams { cas: self.cas, ns: self.ns, recurse: self.recurse, ..no_params() }
    }

    /// The request that this builder describes for `key`.
    pub open spec fn endpoint(self, key: Seq<char>) -> RequestView {
        RequestView { method: Method::Delete, path: kv_path(key), params: self.params(), body: None }
    }

    /// Sets the key that the request is about.
    pub fn key(self, key: &str) -> (r: Self)
        ensures
            r.key is Some && r.key->0@ == key@,
            r.params() == self.params(),
    {
        DeleteKeyRequestBuilder { key: Some(String::from_str(key)), ..self }
    }

    /// Makes the request act only if the key's modify index equals `v`.
    pub fn cas(self, v: u64) -> (r: Self)
        ensures
            r.cas == Some(v),
            r.key == self.key,
            r.ns == self.ns,
            r.recurse == self.recurse,
    {
        DeleteKeyRequestBuilder { cas: Some(v), ..self }
    }

    /// Sets the namespace of the key.
    pub fn ns(self, v: &str) -> (r: Self)
        ensures
            r.ns is Some && r.ns->0@ == v@,
            r.key == self.key,
            r.cas == self.cas,
            r.recurse == self.recurse,
    {
        DeleteKeyRequestBuilder { ns: Some(String::from_str(v)), ..self }
    }

    /// Makes the request act on every key that starts with the key.
    pub fn recurse(self, v: bool) -> (r: Self)
        ensures
            r.recurse == v,
            r.key == self.key,
            r.cas == self.cas,
            r.ns == self.ns,
    {
        DeleteKeyRequestBuilder { recurse: v, ..self }
    }

    /// The finished request, or `MissingKey` where no key was set.
    pub fn build(self) -> (r: Result<Request, BuildError>)
        ensures
            self.key is None ==> r == Err::<Request, BuildError>(BuildError::MissingKey),
            self.key is Some ==> r is Ok && r->Ok_0@ == self.endpoint(self.key->0@),
    {
        match self.key {
            None => Err(BuildError::MissingKey),
            Some(k) => {
                let params = QueryParams {
                    dc: None,
                    ns: self.ns,
                    recurse: self.recurse,
                    raw: false,
                    keys: false,
                    separator: None,
                    cas: self.cas,
                    flags: None,
                    acquire: None,
                    release: None,
                };
                Ok(Request { method: Method::Delete, path: key_path(k.as_str()), params, body: None })
            },
        }
    }
}

/// Builder of a request that lists the key names that start with a prefix.
#[derive(Clone, Debug)]
pub struct ReadKeysRequestBuilder {
    pub key: Option<String>,
    pub dc: Option<String>,
    pub ns: Option<String>,
    pub separator: Option<String>,
}

impl Default for ReadKeysRequestBuilder {
    /// A builder with no key and no optional parameter.
    fn default() -> (r: Self)
        ensures
            r.key is None,
            r.params() == (QueryParams { keys: true, ..no_params() }),
    {
        ReadKeysRequestBuilder {
            key: None,
            dc: None,
            ns: None,
            separator: None,
        }
    }
}

impl ReadKeysRequestBuilder {
    /// The query parameters of the request.
    pub open spec fn params(self) -> QueryParams {
        QueryParams { dc: self.dc, ns: self.ns, separator: self.separator, keys: true, ..no_params() }
    }

    /// The request that this builder describes for `key`.
    pub open spec fn endpoint(self, key: Seq<char>) -> RequestView {
        RequestView { method: Method::Get, path: kv_path(key), params: self.params(), body: None }
    }

    /// Sets the key that the request is about.
    pub fn key(self, key: &str) -> (r: Self)
        ensures
            r.key is Some && r.key->0@ == key@,
            r.params() == self.params(),
    {
        ReadKeysRequestBuilder { key: Some(String::from_str(key)), ..self }
    }

    /// Sets the datacenter to query.
    pub fn dc(self, v: &str) -> (r: Self)
        ensures
            r.dc is Some && r.dc->0@ == v@,
            r.key == self.key,
            r.ns == self.ns,
            r.separator == self.separator,
    {
        ReadKeysRequestBuilder { dc: Some(String::from_str(v)), ..self }
    }

    /// Sets the namespace of the key.
    pub fn ns(self, v: &str) -> (r: Self)
        ensures
            r.ns is Some && r.ns->0@ == v@,
            r.key == self.key,
            r.dc == self.dc,
            r.separator == self.separator,
    {
        ReadKeysRequestBuilder { ns: Some(String::from_str(v)), ..self }
    }

    /// Lists keys only up to this separator.
    pub fn separator(self, v: &str) -> (r: Self)
        ensures
            r.separator is Some && r.separator->0@ == v@,
            r.key == self.key,
            r.dc == self.dc,
            r.ns == self.ns,
    {
        ReadKeysRequestBuilder { separator: Some(String::from_str(v)), ..self }
    }

    /// The finished request, or `MissingKey` where no key was set.
    pub fn build(self) -> (r: Result<Request, BuildError>)
        ensures
            self.key is None ==> r == Err::<Request, BuildError>(BuildError::MissingKey),
            self.key is Some ==> r is Ok && r->Ok_0@ == self.endpoint(self.key->0@),
    {
        match self.key {
            None => Err(BuildError::MissingKey),
            Some(k) => {
                let params = QueryParams {
                    dc: self.dc,
                    ns: self.ns,
                    recurse: false,
                    raw: false,
                    keys: true,
                    separator: self.separator,
                    cas: None,
                    flags: None,
                    acquire: None,
                    release: None,
                };
                Ok(Request { method: Method::Get, path: key_path(k.as_str()), params, body: None })
            },
        }
    }
}

/// Builder of a request that reads the bare value stored at a key.
#[derive(Clone, Debug)]
pub struct ReadRawKeyRequestBuilder {
    pub key: Option<String>,
    pub dc: Option<String>,
    pub ns: Option<String>,
}

impl Default for ReadRawKeyRequestBuilder {
    /// A builder with no key and no optional parameter.
    fn default() -> (r: Self)
        ensures
            r.key is None,
            r.params() == (QueryParams { raw: true, ..no_params() }),
    {
        ReadRawKeyRequestBuilder {
            key: None,
            dc: None,
            ns: None,
        }
    }
}

impl ReadRawKeyRequestBuilder {
    /// The query parameters of the request.
    pub open spec fn params(self) -> QueryParams {
        QueryParams { dc: self.dc, ns: self.ns, raw: true, ..no_params() }
    }

    /// The request that this builder describes for `key`.
    pub open spec fn endpoint(self, key: Seq<char>) -> RequestView {
        RequestView { method: Method::Get, path: kv_path(key), params: self.params(), body: None }
    }

    /// Sets the key that the request is about.
    pub fn key(self, key: &str) -> (r: Self)
        ensures
            r.key is Some && r.key->0@ == key@,
            r.params() == self.params(),
    {
        ReadRawKeyRequestBuilder { key: Some(String::from_str(key)), ..self }
    }

    /// Sets the datacenter to query.
    pub fn dc(self, v: &str) -> (r: Self)
        ensures
            r.dc is Some && r.dc->0@ == v@,
            r.key == self.key,
            r.ns == self.ns,
    {
        ReadRawKeyRequestBuilder { dc: Some(String::from_str(v)), ..self }
    }

    /// Sets the namespace of the key.
    pub fn ns(self, v: &str) -> (r: Self)
        ensures
            r.ns is Some && r.ns->0@ == v@,
            r.key == self.key,
            r.dc == self.dc,
    {
        ReadRawKeyRequestBuilder { ns: Some(String::from_str(v)), ..self }
    }

    /// The finished request, or `MissingKey` where no key was set.
    pub fn build(self) -> (r: Result<Request, BuildError>)
        ensures
            self.key is None ==> r == Err::<Request, BuildError>(BuildError::MissingKey),
            self.key is Some ==> r is Ok && r->Ok_0@ == self.endpoint(self.key->0@),
    {
        match self.key {
            None => Err(BuildError::MissingKey),
            Some(k) => {
                let params = QueryParams {
                    dc: self.dc,
                    ns: self.ns,
                    recurse: false,
                    raw: true,
                    keys: false,
                    separator: None,
                    cas: None,
                    flags: None,
                    acquire: None,
                    release: None,
                };
                Ok(Request { method: Method::Get, path: key_path(k.as_str()), params, body: None })
            },
        }
    }
}

/// Builder of a request that stores a value at a key.
#[derive(Clone, Debug)]
pub struct SetKeyRequestBuilder {
    pub key: Option<String>,
    pub value: Vec<u8>,
    pub acquire: Option<String>,
    pub cas: Option<u64>,
    pub dc: Option<String>,
    pub flags: Option<u64>,
    pub ns: Option<String>,
    pub release: Option<String>,
}

impl Default for SetKeyRequestBuilder {
    /// A builder with no key and no optional parameter.
    fn default() -> (r: Self)
        ensures
            r.key is None,
            r.params() == no_params(),
            r.value@.len() == 0,
    {
        SetKeyRequestBuilder {
            key: None,
            value: Vec::new(),
            acquire: None,
            cas: None,
            dc: None,
            flags: None,
            ns: None,
            release: None,
        }
    }
}

impl SetKeyRequestBuilder {
    /// The query parameters of the request.
    pub open spec fn params(self) -> QueryParams {
        QueryParams { acquire: self.acquire, cas: self.cas, dc: self.dc, flags: self.flags, ns: self.ns, release: self.release, ..no_params() }
    }

    /// The request that this builder describes for `key`.
    pub open spec fn endpoint(self, key: Seq<char>) -> RequestView {
        RequestView { method: Method::Put, path: kv_path(key), params: self.params(), body: Some(self.value@) }
    }

    /// Sets the key that the request is about.
    pub fn key(self, key: &str) -> (r: Self)
        ensures
            r.key is Some && r.key->0@ == key@,
            r.params() == self.params(),
            r.value == self.value,
    {
        SetKeyRequestBuilder { key: Some(String::from_str(key)), ..self }
    }

    /// Sets the bytes to store.
    pub fn value(self, v: Vec<u8>) -> (r: Self)
        ensures
            r.value == v,
            r.key == self.key,
            r.acquire == self.acquire,
            r.cas == self.cas,
            r.dc == self.dc,
            r.flags == self.flags,
            r.ns == self.ns,
            r.release == self.release,
    {
        SetKeyRequestBuilder { value: v, ..self }
    }

    /// Acquires the key's lock for the given session.
    pub fn acquire(self, v: &str) -> (r: Self)
        ensures
            r.acquire is Some && r.acquire->0@ == v@,
            r.key == self.key,
            r.value == self.value,
            r.cas == self.cas,
            r.dc == self.dc,
            r.flags == self.flags,
            r.ns == self.ns,
            r.release == self.release,
    {
        SetKeyRequestBuilder { acquire: Some(String::from_str(v)), ..self }
    }

    /// Makes the request act only if the key's modify index equals `v`.
    pub fn cas(self, v: u64) -> (r: Self)
        ensures
            r.cas == Some(v),
            r.key == self.key,
            r.value == self.value,
            r.acquire == self.acquire,
            r.dc == self.dc,
            r.flags == self.flags,
            r.ns == self.ns,
            r.release == self.release,
    {
        SetKeyRequestBuilder { cas: Some(v), ..self }
    }

    /// Sets the datacenter to query.
    pub fn dc(self, v: &str) -> (r: Self)
        ensures
            r.dc is Some && r.dc->0@ == v@,
            r.key == self.key,
            r.value == self.value,
            r.acquire == self.acquire,
            r.cas == self.cas,
            r.flags == self.flags,
            r.ns == self.ns,
            r.release == self.release,
    {
        SetKeyRequestBuilder { dc: Some(String::from_str(v)), ..self }
    }

    /// Sets the flags stored with the value.
    pub fn flags(self, v: u64) -> (r: Self)
        ensures
            r.flags == Some(v),
            r.key == self.key,
            r.value == self.value,
            r.acquire == self.acquire,
            r.cas == self.cas,
            r.dc == self.dc,
            r.ns == self.ns,
            r.release == self.release,
    {
        SetKeyRequestBuilder { flags: Some(v), ..self }
    }

    /// Sets the namespace of the key.
    pub fn ns(self, v: &str) -> (r: Self)
        ensures
            r.ns is Some && r.ns->0@ == v@,
            r.key == self.key,
            r.value == self.value,
            r.acquire == self.acquire,
            r.cas == self.cas,
            r.dc == self.dc,
            r.flags == self.flags,
            r.release == self.release,
    {
        SetKeyRequestBuilder { ns: Some(String::from_str(v)), ..self }
    }

    /// Releases the key's lock held by the given session.
    pub fn release(self, v: &str) -> (r: Self)
        ensures
            r.release is Some && r.release->0@ == v@,
            r.key == self.key,
            r.value == self.value,
            r.acquire == self.acquire,
            r.cas == self.cas,
            r.dc == self.dc,
            r.flags == self.flags,
            r.ns == self.ns,
    {
        SetKeyRequestBuilder { release: Some(String::from_str(v)), ..self }
    }

    /// The finished request, or `MissingKey` where no key was set.
    pub fn build(self) -> (r: Result<Request, BuildError>)
        ensures
            self.key is None ==> r == Err::<Request, BuildError>(BuildError::MissingKey),
            self.key is Some ==> r is Ok && r->Ok_0@ == self.endpoint(self.key->0@),
    {
        match self.key {
            None => Err(BuildError::MissingKey),
            Some(k) => {
                let params = QueryParams {
                    dc: self.dc,
                    ns: self.ns,
                    recurse: false,
                    raw: false,
                    keys: false,
                    separator: None,
                    cas: self.cas,
                    flags: self.flags,
                    acquire: self.acquire,
                    release: self.release,
                };
                Ok(Request { method: Method::Put, path: key_path(k.as_str()), params, body: Some(self.value) })
            },
        }
    }
}

} // verus!
