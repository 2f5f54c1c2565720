//! Local UDP discovery: the GUI sends `ASTRAL_DISCOVER`, the daemon answers
//! `ASTRAL_CORE <rpc address>`.
use vstd::prelude::*;

use crate::digest::utf8_decode;
use crate::text::{append_str, drop_chars, has_prefix, starts_with_chars, str_chars, string_from_chars,
    trim, trim_chars};

verus! {

/// Fixed UDP discovery port (next to the RPC port 50051).
pub const DISCOVERY_PORT: u16 = 50050;

/// Prefix of the daemon's answer.
pub const RESPONSE_PREFIX: &'static str = "ASTRAL_CORE ";

/// The bytes of `ASTRAL_DISCOVER`.
pub open spec fn magic_spec() -> Seq<u8> {
    seq![65u8, 83, 84, 82, 65, 76, 95, 68, 73, 83, 67, 79, 86, 69, 82]
}

/// The request datagram: `ASTRAL_DISCOVER`.
pub fn discover_magic() -> (m: Vec<u8>)
    ensures
        m@ == magic_spec(),
{
    let m: Vec<u8> = vec![65u8, 83, 84, 82, 65, 76, 95, 68, 73, 83, 67, 79, 86, 69, 82];
    assert(m@ =~= magic_spec());
    m
}

/// Whether a received datagram is a discovery request: it starts with
/// `ASTRAL_DISCOVER`.
pub fn is_discovery_request(data: &[u8]) -> (b: bool)
    ensures
        b == (data@.len() >= 15 && data@.subrange(0, 15) == magic_spec()),
{
    let magic = discover_magic();
    if data.len() < 15 {
        return false;
    }
    let mut i: usize = 0;
    while i < 15
        invariant
            i <= 15,
            data@.len() >= 15,
            magic@ == magic_spec(),
            forall|k: int| 0 <= k < i ==> data@[k] == magic@[k],
        decreases 15 - i,
    {
        if data[i] != magic[i] {
            assert(data@.subrange(0, 15)[i as int] != magic_spec()[i as int]);
            return false;
        }
        i = i + 1;
    }
    assert(data@.subrange(0, 15) =~= magic_spec());
    true
}

/// The answer carrying the RPC address text: `ASTRAL_CORE <addr>`.
pub fn discovery_response(rpc_addr: &str) -> (r: String)
    ensures
        r@ == RESPONSE_PREFIX@ + rpc_addr@,
{
    let mut v: Vec<char> = Vec::new();
    append_str(&mut v, RESPONSE_PREFIX);
    append_str(&mut v, rpc_addr);
    string_from_chars(v.as_slice())
}

/// What a discovery answer yields: the text after `ASTRAL_CORE `,
/// trimmed, when the datagram is UTF-8 and has that prefix.
pub open spec fn discovery_answer(data: Seq<u8>) -> Option<Seq<char>> {
    if !vstd::utf8::valid_utf8(data) {
        None
    } else {
        let s = vstd::utf8::decode_utf8(data);
        if has_prefix(s, RESPONSE_PREFIX@) {
            Some(trim(s.subrange(RESPONSE_PREFIX@.len() as int, s.len() as int)))
        } else {
            None
        }
    }
}

/// GUI side: the RPC address in a discovery answer (e.g. `127.0.0.1:50051`).
pub fn parse_discovery_response(data: &[u8]) -> (r: Option<String>)
    ensures
        match (r, discovery_answer(data@)) {
            (Some(a), Some(b)) => a@ == b,
            (None, None) => true,
            _ => false,
        },
{
    let s = match utf8_decode(data) {
        Some(s) => s,
        None => return None,
    };
    let cs = str_chars(s.as_str());
    let prefix = str_chars(RESPONSE_PREFIX);
    if !starts_with_chars(&cs, &prefix) {
        return None;
    }
    let rest = drop_chars(&cs, prefix.len());
    let t = trim_chars(&rest);
    Some(string_from_chars(t.as_slice()))
}

/// An answer built from an address gives that address back, trimmed:
/// the GUI finds the core where the core said it listens.
pub proof fn discovery_round_trip(addr: Seq<char>)
    ensures
        discovery_answer(vstd::utf8::encode_utf8(RESPONSE_PREFIX@ + addr)) == Some(trim(addr)),
{
    broadcast use vstd::utf8::encode_utf8_valid_utf8, vstd::utf8::encode_utf8_decode_utf8;

    let s = RESPONSE_PREFIX@ + addr;
    assert(s.subrange(0, RESPONSE_PREFIX@.len() as int) =~= RESPONSE_PREFIX@);
    assert(s.subrange(RESPONSE_PREFIX@.len() as int, s.len() as int) =~= addr);
}

/// The request the GUI sends is recognized as one.
pub proof fn discovery_request_recognized(extra: Seq<u8>)
    ensures
        ({
            let d = magic_spec() + extra;
            d.len() >= 15 && d.subrange(0, 15) == magic_spec()
        }),
{
    let d = magic_spec() + extra;
    assert(d.subrange(0, 15) =~= magic_spec());
}

} // verus!
