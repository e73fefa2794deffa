//! The metadata that the store sends in the headers of its answers.

use vstd::prelude::*;
use vstd::string::StringSliceAdditionalSpecFns;
use vstd::utf8::encode_utf8;
use crate::response::ResponseMeta;
use crate::target::{UPPER_A, UPPER_Z};

verus! {

/// `b` in lower case where it is an ASCII capital letter.
pub open spec fn fold(b: u8) -> u8 {
    if UPPER_A <= b <= UPPER_Z {
        (b + 32) as u8
    } else {
        b
    }
}

/// Header names are compared without regard to ASCII case.
pub open spec fn same_name(a: Seq<u8>, b: Seq<u8>) -> bool {
    a.len() == b.len() && forall|i: int| 0 <= i < a.len() ==> fold(#[trigger] a[i]) == fold(b[i])
}

/// The value of the first header named `name`, if any.
pub open spec fn header_value(hs: Seq<(String, String)>, name: Seq<u8>) -> Option<Seq<char>>
    decreases hs.len(),
{
    if hs.len() == 0 {
        None
    } else if same_name(encode_utf8(hs[0].0@), name) {
        Some(hs[0].1@)
    } else {
        header_value(hs.drop_first(), name)
    }
}

/// A text that may be absent, viewed as characters.
pub open spec fn opt_text(t: Option<String>) -> Option<Seq<char>> {
    match t {
        Some(s) => Some(s@),
        None => None,
    }
}

fn fold_byte(b: u8) -> (r: u8)
    ensures
        r == fold(b),
{
    if UPPER_A <= b && b <= UPPER_Z {
        b + 32
    } else {
        b
    }
}

fn names_match(a: &[u8], b: &[u8]) -> (r: bool)
    ensures
        r == same_name(a@, b@),
{
    if a.len() != b.len() {
        return false;
    }
    let mut i: usize = 0;
    while i < a.len()
        invariant
            a@.len() == b@.len(),
            i <= a@.len(),
            forall|j: int| 0 <= j < i ==> fold(#[trigger] a@[j]) == fold(b@[j]),
        decreases a@.len() - i,
    {
        if fold_byte(a[i]) != fold_byte(b[i]) {
            return false;
        }
        i = i + 1;
    }
    true
}

/// The value of the first header named `name`, compared without regard to
/// ASCII case.
pub fn find_header(headers: &Vec<(String, String)>, name: &str) -> (r: Option<String>)
    ensures
        opt_text(r) == header_value(headers@, name.spec_bytes()),
{
    let mut i: usize = 0;
    assert(headers@.skip(0) =~= headers@);
    while i < headers.len()
        invariant
            i <= headers@.len(),
            header_value(headers@, name.spec_bytes()) == header_value(
                headers@.skip(i as int),
                name.spec_bytes(),
            ),
        decreases headers@.len() - i,
    {
        let ghost rest = headers@.skip(i as int);
        assert(rest[0] == headers@[i as int]);
        assert(rest.drop_first() =~= headers@.skip(i + 1));
        if names_match(headers[i].0.as_str().as_bytes(), name.as_bytes()) {
            return Some(headers[i].1.clone());
        }
        i = i + 1;
    }
    None
}

/// The store's metadata on an answer, read from its headers.
pub fn meta_from_headers(headers: &Vec<(String, String)>) -> (r: ResponseMeta)
    ensures
        opt_text(r.cache) == header_value(headers@, "X-Cache".spec_bytes()),
        opt_text(r.content_hash) == header_value(headers@, "X-Consul-ContentHash".spec_bytes()),
        opt_text(r.default_acl_policy) == header_value(
            headers@,
            "X-Consul-Default-ACL-Policy".spec_bytes(),
        ),
        opt_text(r.index) == header_value(headers@, "X-Consul-Index".spec_bytes()),
        opt_text(r.known_leader) == header_value(headers@, "X-Consul-KnownLeader".spec_bytes()),
        opt_text(r.last_contact) == header_value(headers@, "X-Consul-LastContact".spec_bytes()),
        opt_text(r.query_backend) == header_value(headers@, "X-Consul-Query-Backend".spec_bytes()),
{
    ResponseMeta {
        cache: find_header(headers, "X-Cache"),
        content_hash: find_header(headers, "X-Consul-ContentHash"),
        default_acl_policy: find_header(headers, "X-Consul-Default-ACL-Policy"),
        index: find_header(headers, "X-Consul-Index"),
        known_leader: find_header(headers, "X-Consul-KnownLeader"),
        last_contact: find_header(headers, "X-Consul-LastContact"),
        query_backend: find_header(headers, "X-Consul-Query-Backend"),
    }
}

} // verus!
