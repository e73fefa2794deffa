//! The request target that the transport sends: the percent-encoded path
//! followed by the query string.

use vstd::prelude::*;
use vstd::string::StringSliceAdditionalSpecFns;
use vstd::utf8::encode_utf8;
use crate::request::{QueryParams, Request, RequestView};

verus! {

/// ASCII codes of the characters that URLs treat specially.
pub const ZERO: u8 = 48;
pub const NINE: u8 = 57;
pub const UPPER_A: u8 = 65;
pub const UPPER_Z: u8 = 90;
pub const LOWER_A: u8 = 97;
pub const LOWER_Z: u8 = 122;
pub const HYPHEN: u8 = 45;
pub const UNDERSCORE: u8 = 95;
pub const DOT: u8 = 46;
pub const TILDE: u8 = 126;
pub const SLASH: u8 = 47;
pub const PERCENT: u8 = 37;
pub const EQUALS: u8 = 61;
pub const AMPERSAND: u8 = 38;
pub const QUESTION: u8 = 63;

/// The hexadecimal digit of `d`, in upper case.
pub open spec fn hex_digit(d: u8) -> u8 {
    if d < 10 {
        (ZERO + d) as u8
    } else {
        (UPPER_A + d - 10) as u8
    }
}

/// Bytes that stand for themselves in a URL; `/` too where it separates
/// path segments.
pub open spec fn unreserved(b: u8, keep_slash: bool) -> bool {
    ||| ZERO <= b <= NINE
    ||| UPPER_A <= b <= UPPER_Z
    ||| LOWER_A <= b <= LOWER_Z
    ||| b == HYPHEN || b == UNDERSCORE || b == DOT || b == TILDE
    ||| keep_slash && b == SLASH
}

/// One byte, percent-encoded where it is not unreserved.
pub open spec fn escape_byte(b: u8, keep_slash: bool) -> Seq<u8> {
    if unreserved(b, keep_slash) {
        seq![b]
    } else {
        seq![PERCENT, hex_digit(b / 16), hex_digit(b % 16)]
    }
}

/// `s` percent-encoded, byte by byte.
pub open spec fn escaped(s: Seq<u8>, keep_slash: bool) -> Seq<u8>
    decreases s.len(),
{
    if s.len() == 0 {
        seq![]
    } else {
        escaped(s.drop_last(), keep_slash) + escape_byte(s.last(), keep_slash)
    }
}

/// `n` in decimal digits.
pub open spec fn decimal(n: nat) -> Seq<u8>
    decreases n,
{
    if n < 10 {
        seq![(ZERO + n) as u8]
    } else {
        decimal(n / 10) + seq![(ZERO + n % 10) as u8]
    }
}

/// The query piece `name=value` of a text parameter, if it is set.
pub open spec fn text_piece(name: &str, v: Option<String>) -> Seq<Seq<u8>> {
    match v {
        Some(s) => seq![name.spec_bytes() + seq![EQUALS] + escaped(encode_utf8(s@), false)],
        None => seq![],
    }
}

/// The query piece `name=value` of a number parameter, if it is set.
pub open spec fn number_piece(name: &str, v: Option<u64>) -> Seq<Seq<u8>> {
    match v {
        Some(n) => seq![name.spec_bytes() + seq![EQUALS] + decimal(n as nat)],
        None => seq![],
    }
}

/// The query piece `name` of a switch, if it is on.
pub open spec fn switch_piece(name: &str, on: bool) -> Seq<Seq<u8>> {
    if on {
        seq![name.spec_bytes()]
    } else {
        seq![]
    }
}

/// The query pieces of `p`, in a fixed order.
pub open spec fn param_pieces(p: QueryParams) -> Seq<Seq<u8>> {
    text_piece("dc", p.dc) + text_piece("ns", p.ns) + text_piece("separator", p.separator)
        + text_piece("acquire", p.acquire) + text_piece("release", p.release) + number_piece(
        "cas",
        p.cas,
    ) + number_piece("flags", p.flags) + switch_piece("recurse", p.recurse) + switch_piece(
        "raw",
        p.raw,
    ) + switch_piece("keys", p.keys)
}

/// The pieces joined by `&`.
pub open spec fn joined(ps: Seq<Seq<u8>>) -> Seq<u8>
    decreases ps.len(),
{
    if ps.len() == 0 {
        seq![]
    } else if ps.len() == 1 {
        ps[0]
    } else {
        joined(ps.drop_last()) + seq![AMPERSAND] + ps.last()
    }
}

/// The query string of the pieces: none where there are none, else `?`
/// and the pieces joined by `&`.
pub open spec fn query_text(ps: Seq<Seq<u8>>) -> Seq<u8> {
    if ps.len() == 0 {
        seq![]
    } else {
        seq![QUESTION] + joined(ps)
    }
}

/// The target of a request: its encoded path, then its query string.
pub open spec fn target_of(req: RequestView) -> Seq<u8> {
    escaped(encode_utf8(req.path), true) + query_text(param_pieces(req.params))
}

/// The byte strings of `ps`, viewed as sequences.
pub open spec fn views(ps: Seq<Vec<u8>>) -> Seq<Seq<u8>> {
    ps.map_values(|x: Vec<u8>| x@)
}

fn hex(d: u8) -> (r: u8)
    requires
        d < 16,
    ensures
        r == hex_digit(d),
{
    if d < 10 {
        ZERO + d
    } else {
        UPPER_A + (d - 10)
    }
}

fn append(out: &mut Vec<u8>, s: &[u8])
    ensures
        final(out)@ == old(out)@ + s@,
{
    let ghost start = out@;
    let mut i: usize = 0;
    while i < s.len()
        invariant
            i <= s@.len(),
            out@ == start + s@.take(i as int),
        decreases s@.len() - i,
    {
        out.push(s[i]);
        i = i + 1;
        assert(out@ =~= start + s@.take(i as int));
    }
    assert(s@.take(s@.len() as int) =~= s@);
}

fn escape_into(out: &mut Vec<u8>, s: &[u8], keep_slash: bool)
    ensures
        final(out)@ == old(out)@ + escaped(s@, keep_slash),
{
    let ghost start = out@;
    let mut i: usize = 0;
    while i < s.len()
        invariant
            i <= s@.len(),
            out@ == start + escaped(s@.take(i as int), keep_slash),
        decreases s@.len() - i,
    {
        let b = s[i];
        let ghost before = out@;
        if (ZERO <= b && b <= NINE) || (UPPER_A <= b && b <= UPPER_Z) || (LOWER_A <= b && b <= LOWER_Z) || b
            == HYPHEN || b == UNDERSCORE || b == DOT || b == TILDE || (keep_slash && b == SLASH) {
            out.push(b);
        } else {
            out.push(PERCENT);
            out.push(hex(b / 16));
            out.push(hex(b % 16));
        }
        assert(out@ =~= before + escape_byte(b, keep_slash));
        assert(s@.take(i + 1).drop_last() =~= s@.take(i as int));
        i = i + 1;
        assert(out@ =~= start + escaped(s@.take(i as int), keep_slash));
    }
    assert(s@.take(s@.len() as int) =~= s@);
}

fn decimal_into(out: &mut Vec<u8>, n: u64)
    ensures
        final(out)@ == old(out)@ + decimal(n as nat),
    decreases n,
{
    let ghost start = out@;
    if n >= 10 {
        decimal_into(out, n / 10);
    }
    out.push(ZERO + (n % 10) as u8);
    assert(out@ =~= start + decimal(n as nat));
}

fn push_text(pieces: &mut Vec<Vec<u8>>, name: &str, v: &Option<String>)
    ensures
        views(final(pieces)@) == views(old(pieces)@) + text_piece(name, *v),
{
    match v {
        Some(s) => {
            let mut piece: Vec<u8> = Vec::new();
            append(&mut piece, name.as_bytes());
            piece.push(EQUALS);
            escape_into(&mut piece, s.as_str().as_bytes(), false);
            assert(piece@ =~= name.spec_bytes() + seq![EQUALS] + escaped(encode_utf8(s@), false));
            pieces.push(piece);
        },
        None => {},
    }
    assert(views(pieces@) =~= views(old(pieces)@) + text_piece(name, *v));
}

fn push_number(pieces: &mut Vec<Vec<u8>>, name: &str, v: Option<u64>)
    ensures
        views(final(pieces)@) == views(old(pieces)@) + number_piece(name, v),
{
    match v {
        Some(n) => {
            let mut piece: Vec<u8> = Vec::new();
            append(&mut piece, name.as_bytes());
            piece.push(EQUALS);
            decimal_into(&mut piece, n);
            assert(piece@ =~= name.spec_bytes() + seq![EQUALS] + decimal(n as nat));
            pieces.push(piece);
        },
        None => {},
    }
    assert(views(pieces@) =~= views(old(pieces)@) + number_piece(name, v));
}

fn push_switch(pieces: &mut Vec<Vec<u8>>, name: &str, on: bool)
    ensures
        views(final(pieces)@) == views(old(pieces)@) + switch_piece(name, on),
{
    if on {
        let mut piece: Vec<u8> = Vec::new();
        append(&mut piece, name.as_bytes());
        pieces.push(piece);
    }
    assert(views(pieces@) =~= views(old(pieces)@) + switch_piece(name, on));
}

/// The query pieces of `p`.
pub fn query_pieces(p: &QueryParams) -> (r: Vec<Vec<u8>>)
    ensures
        views(r@) == param_pieces(*p),
{
    let mut ps: Vec<Vec<u8>> = Vec::new();
    assert(views(ps@) =~= seq![]);
    push_text(&mut ps, "dc", &p.dc);
    push_text(&mut ps, "ns", &p.ns);
    push_text(&mut ps, "separator", &p.separator);
    push_text(&mut ps, "acquire", &p.acquire);
    push_text(&mut ps, "release", &p.release);
    push_number(&mut ps, "cas", p.cas);
    push_number(&mut ps, "flags", p.flags);
    push_switch(&mut ps, "recurse", p.recurse);
    push_switch(&mut ps, "raw", p.raw);
    push_switch(&mut ps, "keys", p.keys);
    assert(views(ps@) =~= param_pieces(*p));
    ps
}

/// Writes the query string of the pieces after `out`.
fn query_into(out: &mut Vec<u8>, ps: &Vec<Vec<u8>>)
    ensures
        final(out)@ == old(out)@ + query_text(views(ps@)),
{
    let ghost start = out@;
    if ps.len() == 0 {
        assert(out@ =~= start + query_text(views(ps@)));
        return;
    }
    out.push(QUESTION);
    let mut i: usize = 0;
    while i < ps.len()
        invariant
            i <= ps@.len(),
            ps@.len() > 0,
            out@ == start + seq![QUESTION] + joined(views(ps@).take(i as int)),
        decreases ps@.len() - i,
    {
        let ghost before = out@;
        if i > 0 {
            out.push(AMPERSAND);
        }
        append(&mut *out, ps[i].as_slice());
        let ghost t = views(ps@).take(i + 1);
        assert(t.drop_last() =~= views(ps@).take(i as int));
        assert(t.last() == ps@[i as int]@);
        if i == 0 {
            assert(joined(views(ps@).take(0)) =~= seq![]);
            assert(out@ =~= start + seq![QUESTION] + joined(t));
        } else {
            assert(out@ =~= start + seq![QUESTION] + joined(t));
        }
        i = i + 1;
    }
    assert(views(ps@).take(ps@.len() as int) =~= views(ps@));
}

/// The target of `req`: its path percent-encoded, `/` kept, then the query
/// string of its parameters.
pub fn request_target(req: &Request) -> (r: Vec<u8>)
    ensures
        r@ == target_of(req@),
{
    let mut out: Vec<u8> = Vec::new();
    escape_into(&mut out, req.path.as_str().as_bytes(), true);
    let ps = query_pieces(&req.params);
    query_into(&mut out, &ps);
    assert(out@ =~= target_of(req@));
    out
}

} // verus!
