//! A model of the store's key/value endpoints, and the laws that the
//! requests of this crate obey in it.
//!
//! The store is a map from keys to stored bytes. The model covers reads,
//! key listings, deletes, and writes without check-and-set or lock
//! parameters; the store's indices and sessions are left out.

use vstd::prelude::*;
use crate::request::{kv_path, kv_prefix, Method, RequestView, ReadKeyRequestBuilder};
use crate::response::{json_payload, KVPair};
use crate::kv::{delete_view, json_read_outcome, keys_view, read_view, set_view, Client};
use crate::response::{parsed_json, json_text_of, ApiResponse, ClientError, GenericKVPair};

verus! {

/// The keys of a store, with the bytes stored at each.
pub type Store = Map<Seq<char>, Seq<u8>>;

/// The key that a request addresses: its path below the key/value prefix.
pub open spec fn request_key(req: RequestView) -> Seq<char> {
    req.path.skip(kv_prefix().len() as int)
}

/// The store after it has carried out `req`.
pub open spec fn after(store: Store, req: RequestView) -> Store {
    let k = request_key(req);
    match req.method {
        Method::Put => match req.body {
            Some(b) => store.insert(k, b),
            None => store.insert(k, Seq::empty()),
        },
        Method::Delete => if req.params.recurse {
            store.restrict(store.dom().filter(|x: Seq<char>| !k.is_prefix_of(x)))
        } else {
            store.remove(k)
        },
        Method::Get => store,
    }
}

/// The flag that the store answers to a write or a delete.
pub open spec fn flag_answer(req: RequestView) -> bool {
    req.method == Method::Put || req.method == Method::Delete
}

/// The keys that a read or a listing of `req` matches in `store`: every key
/// that starts with the request's key where it recurses or lists, else that
/// key alone.
pub open spec fn matched(store: Store, req: RequestView) -> Set<Seq<char>> {
    let k = request_key(req);
    if req.params.recurse || req.params.keys {
        store.dom().filter(|x: Seq<char>| k.is_prefix_of(x))
    } else {
        store.dom().filter(|x: Seq<char>| x == k)
    }
}

/// The keys of `pairs`, in order.
pub open spec fn pair_keys(pairs: Seq<KVPair>) -> Seq<Seq<char>> {
    pairs.map_values(|p: KVPair| p.key@)
}

/// The key names of a listing, viewed as sequences.
pub open spec fn name_views(names: Seq<String>) -> Seq<Seq<char>> {
    names.map_values(|s: String| s@)
}

/// `pairs` is what the store may answer to the read `req`: one pair for
/// each matched key, with the bytes stored there.
pub open spec fn answers_read(store: Store, req: RequestView, pairs: Seq<KVPair>) -> bool {
    &&& pair_keys(pairs).no_duplicates()
    &&& pair_keys(pairs).to_set() == matched(store, req)
    &&& forall|i: int|
        0 <= i < pairs.len() ==> (#[trigger] pairs[i]).value is Some && pairs[i].value->0@
            == store[pairs[i].key@]
}

/// `a` comes before `b`, or equals it, in the order of character codes.
pub open spec fn key_le(a: Seq<char>, b: Seq<char>) -> bool
    decreases a.len(),
{
    if a.len() == 0 {
        true
    } else if b.len() == 0 {
        false
    } else if a[0] != b[0] {
        (a[0] as u32) < (b[0] as u32)
    } else {
        key_le(a.drop_first(), b.drop_first())
    }
}

/// The names come in ascending order.
pub open spec fn sorted_names(names: Seq<String>) -> bool {
    forall|i: int, j: int| 0 <= i < j < names.len() ==> key_le(#[trigger] names[i]@, #[trigger] names[j]@)
}

/// `names` is what the store may answer to the listing `req`: each matched
/// key once, in ascending order.
pub open spec fn answers_keys(store: Store, req: RequestView, names: Seq<String>) -> bool {
    &&& name_views(names).no_duplicates()
    &&& name_views(names).to_set() == matched(store, req)
    &&& sorted_names(names)
}

proof fn lemma_key_of_path(key: Seq<char>)
    ensures
        kv_path(key).skip(kv_prefix().len() as int) == key,
{
    assert(kv_path(key).skip(kv_prefix().len() as int) =~= key);
}

/// Writing bytes at a key and then reading the key gives exactly one pair:
/// that key, holding those bytes.
pub proof fn lemma_set_then_read(store: Store, key: Seq<char>, value: Seq<u8>, pairs: Seq<KVPair>)
    requires
        answers_read(after(store, set_view(key, value, None)), read_view(key, None), pairs),
    ensures
        pairs.len() == 1,
        pairs[0].key@ == key,
        pairs[0].value is Some && pairs[0].value->0@ == value,
{
    lemma_key_of_path(key);
    let s2 = after(store, set_view(key, value, None));
    assert(s2 == store.insert(key, value));
    assert(matched(s2, read_view(key, None)) =~= set![key]);
    pair_keys(pairs).unique_seq_to_set();
    assert(pairs.len() == 1);
    assert(pair_keys(pairs).to_set().contains(pair_keys(pairs)[0]));
}

/// After bytes are written at a key, a JSON read of the key decodes exactly
/// those bytes.
pub proof fn lemma_set_then_json_payload(
    store: Store,
    key: Seq<char>,
    value: Seq<u8>,
    pairs: Seq<KVPair>,
)
    requires
        answers_read(after(store, set_view(key, value, None)), read_view(key, None), pairs),
    ensures
        json_payload(pairs) == Some(value),
{
    lemma_set_then_read(store, key, value, pairs);
}

/// A read of a key that holds nothing gives no pairs, so a JSON read of it
/// has nothing to decode.
pub proof fn lemma_read_missing(store: Store, key: Seq<char>, pairs: Seq<KVPair>)
    requires
        !store.dom().contains(key),
        answers_read(store, read_view(key, None), pairs),
    ensures
        pairs.len() == 0,
        json_payload(pairs) is None,
{
    lemma_key_of_path(key);
    assert(matched(store, read_view(key, None)) =~= Set::empty());
    if pairs.len() > 0 {
        assert(pair_keys(pairs).to_set().contains(pair_keys(pairs)[0]));
    }
}

/// A recursive read gives one pair for each stored key that starts with the
/// read key.
pub proof fn lemma_recursive_read_count(
    store: Store,
    prefix: Seq<char>,
    b: ReadKeyRequestBuilder,
    pairs: Seq<KVPair>,
)
    requires
        b.recurse,
        answers_read(store, read_view(prefix, Some(b)), pairs),
    ensures
        pairs.len() == store.dom().filter(|k: Seq<char>| prefix.is_prefix_of(k)).len(),
{
    lemma_key_of_path(prefix);
    assert(matched(store, read_view(prefix, Some(b))) =~= store.dom().filter(
        |k: Seq<char>| prefix.is_prefix_of(k),
    ));
    pair_keys(pairs).unique_seq_to_set();
}

/// Deleting a key that holds nothing leaves the store as it was, and the
/// store reports success.
pub proof fn lemma_delete_missing(store: Store, key: Seq<char>)
    requires
        !store.dom().contains(key),
    ensures
        after(store, delete_view(key, None)) == store,
        flag_answer(delete_view(key, None)),
{
    lemma_key_of_path(key);
    assert(after(store, delete_view(key, None)) =~= store);
}

/// Writing a key, deleting it, and reading it gives no pairs.
pub proof fn lemma_set_delete_read(store: Store, key: Seq<char>, value: Seq<u8>, pairs: Seq<KVPair>)
    requires
        answers_read(
            after(after(store, set_view(key, value, None)), delete_view(key, None)),
            read_view(key, None),
            pairs,
        ),
    ensures
        pairs.len() == 0,
{
    lemma_key_of_path(key);
    let s3 = after(after(store, set_view(key, value, None)), delete_view(key, None));
    assert(!s3.dom().contains(key));
    lemma_read_missing(s3, key, pairs);
}

/// Listing below the empty key on a store that holds keys names every
/// stored key, and at least one.
pub proof fn lemma_list_all(store: Store, path: Seq<char>, names: Seq<String>)
    requires
        store.dom().finite(),
        store.dom().len() > 0,
        path.len() == 0,
        answers_keys(store, keys_view(path, None), names),
    ensures
        names.len() > 0,
        forall|k: Seq<char>| store.dom().contains(k) ==> name_views(names).contains(k),
{
    lemma_key_of_path(path);
    assert forall|x: Seq<char>| path.is_prefix_of(x) by {
        assert(path =~= x.subrange(0, 0));
    }
    assert(matched(store, keys_view(path, None)) =~= store.dom());
    if names.len() == 0 {
        assert(name_views(names).to_set() =~= Set::empty());
        assert(store.dom().len() == 0);
    }
}

/// Every successful answer of `client` to the read `req` is the store's
/// answer in `store`.
pub open spec fn reads_from<C: Client>(client: &C, store: Store, req: RequestView) -> bool {
    forall|a: Result<ApiResponse<Vec<KVPair>>, ClientError>|
        #[trigger] client.answers_pairs(req, a) && a is Ok ==> answers_read(
            store,
            req,
            a->Ok_0.response@,
        )
}

/// Every successful answer of `client` to the listing `req` is the store's
/// answer in `store`.
pub open spec fn lists_from<C: Client>(client: &C, store: Store, req: RequestView) -> bool {
    forall|a: Result<ApiResponse<Vec<String>>, ClientError>|
        #[trigger] client.answers_keys(req, a) && a is Ok ==> answers_keys(
            store,
            req,
            a->Ok_0.response@,
        )
}

/// Every successful answer of `client` to the write or delete `req` carries
/// the store's flag.
pub open spec fn flags_from<C: Client>(client: &C, req: RequestView) -> bool {
    forall|a: Result<ApiResponse<bool>, ClientError>|
        #[trigger] client.answers_flag(req, a) && a is Ok ==> a->Ok_0.response == flag_answer(req)
}

/// Where `client` reads from the store that `set(key, value)` left, a
/// successful `read(key)` returns exactly one pair: that key, holding those
/// bytes.
pub proof fn lemma_read_after_set<C: Client>(
    client: &C,
    store: Store,
    key: Seq<char>,
    value: Seq<u8>,
    r: Result<ApiResponse<Vec<KVPair>>, ClientError>,
)
    requires
        reads_from(client, after(store, set_view(key, value, None)), read_view(key, None)),
        client.answers_pairs(read_view(key, None), r),
        r is Ok,
    ensures
        r->Ok_0.response@.len() == 1,
        r->Ok_0.response@[0].key@ == key,
        r->Ok_0.response@[0].value is Some && r->Ok_0.response@[0].value->0@ == value,
{
    lemma_set_then_read(store, key, value, r->Ok_0.response@);
}

/// Where `client` reads from the store that `set_json(key, v)` left, a
/// `read_json(key)` decodes exactly the JSON text written for `v`.
pub proof fn lemma_read_json_after_set_json<C: Client>(
    client: &C,
    store: Store,
    key: Seq<char>,
    v: serde_json::Value,
    r: Result<ApiResponse<GenericKVPair<serde_json::Value>>, ClientError>,
)
    requires
        reads_from(client, after(store, set_view(key, json_text_of(v), None)), read_view(key, None)),
        exists|a: Result<ApiResponse<Vec<KVPair>>, ClientError>|
            #[trigger] client.answers_pairs(read_view(key, None), a) && json_read_outcome(a, r),
        r is Ok,
    ensures
        Some(r->Ok_0.response.value) == parsed_json(json_text_of(v)),
        r->Ok_0.response.key@ == key,
{
    let a = choose|a: Result<ApiResponse<Vec<KVPair>>, ClientError>|
        #[trigger] client.answers_pairs(read_view(key, None), a) && json_read_outcome(a, r);
    lemma_set_then_read(store, key, json_text_of(v), a->Ok_0.response@);
}

/// Where `client` reads from a store that holds nothing at `key`,
/// `read_json(key)` never succeeds, and fails with `EmptyResponseError`
/// unless the transport failed.
pub proof fn lemma_read_json_missing<C: Client>(
    client: &C,
    store: Store,
    key: Seq<char>,
    r: Result<ApiResponse<GenericKVPair<serde_json::Value>>, ClientError>,
)
    requires
        !store.dom().contains(key),
        reads_from(client, store, read_view(key, None)),
        exists|a: Result<ApiResponse<Vec<KVPair>>, ClientError>|
            #[trigger] client.answers_pairs(read_view(key, None), a) && json_read_outcome(a, r),
    ensures
        r is Err,
        exists|a: Result<ApiResponse<Vec<KVPair>>, ClientError>|
            #[trigger] client.answers_pairs(read_view(key, None), a) && (a is Err ==> r is Err && r->Err_0 == a->Err_0) && (
            a is Ok ==> r matches Err(ClientError::EmptyResponseError)),
{
    let a = choose|a: Result<ApiResponse<Vec<KVPair>>, ClientError>|
        #[trigger] client.answers_pairs(read_view(key, None), a) && json_read_outcome(a, r);
    if a is Ok {
        lemma_read_missing(store, key, a->Ok_0.response@);
    }
    assert(client.answers_pairs(read_view(key, None), a) && (a is Err ==> r is Err && r->Err_0 == a->Err_0) && (a is Ok
        ==> r matches Err(ClientError::EmptyResponseError)));
}

/// Where `client` reads from the store, a successful recursive `read` returns
/// one pair for each stored key that starts with the read key.
pub proof fn lemma_recursive_read_of<C: Client>(
    client: &C,
    store: Store,
    prefix: Seq<char>,
    b: ReadKeyRequestBuilder,
    r: Result<ApiResponse<Vec<KVPair>>, ClientError>,
)
    requires
        b.recurse,
        reads_from(client, store, read_view(prefix, Some(b))),
        client.answers_pairs(read_view(prefix, Some(b)), r),
        r is Ok,
    ensures
        r->Ok_0.response@.len() == store.dom().filter(|k: Seq<char>| prefix.is_prefix_of(k)).len(),
{
    lemma_recursive_read_count(store, prefix, b, r->Ok_0.response@);
}

/// Where `client` carries the store's flag, a successful `delete` of a key
/// that holds nothing reports success, and leaves the store as it was.
pub proof fn lemma_delete_missing_reports<C: Client>(
    client: &C,
    store: Store,
    key: Seq<char>,
    r: Result<ApiResponse<bool>, ClientError>,
)
    requires
        !store.dom().contains(key),
        flags_from(client, delete_view(key, None)),
        client.answers_flag(delete_view(key, None), r),
        r is Ok,
    ensures
        r->Ok_0.response,
        after(store, delete_view(key, None)) == store,
{
    lemma_delete_missing(store, key);
}

/// Where `client` lists from a store that holds keys, a successful
/// `keys("")` names every stored key, at least one, in ascending order.
pub proof fn lemma_keys_cover<C: Client>(
    client: &C,
    store: Store,
    path: Seq<char>,
    r: Result<ApiResponse<Vec<String>>, ClientError>,
)
    requires
        store.dom().finite(),
        store.dom().len() > 0,
        path.len() == 0,
        lists_from(client, store, keys_view(path, None)),
        client.answers_keys(keys_view(path, None), r),
        r is Ok,
    ensures
        r->Ok_0.response@.len() > 0,
        forall|k: Seq<char>| store.dom().contains(k) ==> name_views(r->Ok_0.response@).contains(k),
        sorted_names(r->Ok_0.response@),
{
    lemma_list_all(store, path, r->Ok_0.response@);
}

} // verus!
