//! Hashing, hex, UUIDs, randomness, the clock and text decoding: each call
//! sits in one small function whose contract is taken as given, next to
//! the specifications of the results.
use vstd::prelude::*;

use sha2::Digest;

verus! {

/// Name for SHA-256 of a byte string (`sha2::Sha256::digest`).
pub uninterp spec fn sha256(data: Seq<u8>) -> Seq<u8>;

/// Name for the lower-case mapping of `str::to_lowercase` (Unicode case
/// tables).
pub uninterp spec fn unicode_lowercase(s: Seq<char>) -> Seq<char>;

/// Name for what `uuid::Uuid::parse_str` accepts and yields (as `u128`).
pub uninterp spec fn uuid_parse(s: Seq<char>) -> Option<u128>;

/// Lower-case hexadecimal digit for `n < 16`.
pub open spec fn hex_digit_lower(n: int) -> char {
    if n < 10 {
        crate::text::digit_char(n)
    } else if n == 10 {
        'a'
    } else if n == 11 {
        'b'
    } else if n == 12 {
        'c'
    } else if n == 13 {
        'd'
    } else if n == 14 {
        'e'
    } else {
        'f'
    }
}

/// Lower-case hexadecimal text of a byte string, two digits per byte,
/// high nibble first (`hex::encode`).
pub open spec fn hex_lower(b: Seq<u8>) -> Seq<char> {
    Seq::new(
        2 * b.len(),
        |i: int|
            if i % 2 == 0 {
                hex_digit_lower(b[i / 2] as int / 16)
            } else {
                hex_digit_lower(b[i / 2] as int % 16)
            },
    )
}

/// The `k`-th hexadecimal digit (0 = most significant) of a 128-bit value.
pub open spec fn nibble(u: u128, k: int) -> int {
    (u as int / vstd::arithmetic::power::pow(16, (31 - k) as nat)) % 16
}

/// Hyphenated lower-case text of a UUID: 8-4-4-4-12 hexadecimal digits.
pub open spec fn uuid_text(u: u128) -> Seq<char> {
    Seq::new(
        36,
        |i: int|
            if i == 8 || i == 13 || i == 18 || i == 23 {
                '-'
            } else if i < 8 {
                hex_digit_lower(nibble(u, i))
            } else if i < 13 {
                hex_digit_lower(nibble(u, i - 1))
            } else if i < 18 {
                hex_digit_lower(nibble(u, i - 2))
            } else if i < 23 {
                hex_digit_lower(nibble(u, i - 3))
            } else {
                hex_digit_lower(nibble(u, i - 4))
            },
    )
}

/// `sha2::Sha256::digest`: the 32-byte SHA-256 digest of `data`.
#[verifier::external_body]
pub(crate) fn sha256_digest(data: &[u8]) -> (d: Vec<u8>)
    ensures
        d@ == sha256(data@),
        d@.len() == 32,
{
    sha2::Sha256::digest(data).to_vec()
}

/// `hex::encode`: two lower-case hexadecimal digits per byte, in order.
#[verifier::external_body]
pub(crate) fn hex_encode(data: &[u8]) -> (s: String)
    ensures
        s@ == hex_lower(data@),
{
    hex::encode(data)
}

/// `rand::RngCore::fill_bytes` on the thread-local generator: 32 random
/// bytes. Nothing is claimed of their values.
#[verifier::external_body]
pub(crate) fn random_bytes_32() -> (b: Vec<u8>)
    ensures
        b@.len() == 32,
{
    let mut buf = [0u8; 32];
    rand::RngCore::fill_bytes(&mut rand::thread_rng(), &mut buf);
    buf.to_vec()
}

/// `uuid::Uuid::new_v4`, as its 128-bit value. Random; nothing is claimed
/// of the value.
#[verifier::external_body]
pub(crate) fn new_uuid_v4() -> (u: u128) {
    uuid::Uuid::new_v4().as_u128()
}

/// `uuid::Uuid::to_string` (its `Display`, the hyphenated form) for the
/// UUID with value `u`: 36 characters, lower-case hexadecimal in groups
/// of 8-4-4-4-12 separated by `-`.
#[verifier::external_body]
pub(crate) fn uuid_hyphenated(u: u128) -> (s: String)
    ensures
        s@ == uuid_text(u),
{
    uuid::Uuid::from_u128(u).to_string()
}

/// `uuid::Uuid::parse_str`, its value on success; the result is named by
/// `uuid_parse` and depends on the text alone.
#[verifier::external_body]
pub(crate) fn parse_uuid(s: &str) -> (r: Option<u128>)
    ensures
        r == uuid_parse(s@),
{
    match uuid::Uuid::parse_str(s) {
        Ok(u) => Some(u.as_u128()),
        Err(_) => None,
    }
}

/// `str::to_lowercase`; the result is named by `unicode_lowercase`.
#[verifier::external_body]
pub(crate) fn str_to_lowercase(s: &str) -> (r: String)
    ensures
        r@ == unicode_lowercase(s@),
{
    s.to_lowercase()
}

/// `std::str::from_utf8`: `Some` exactly for valid UTF-8, holding the
/// decoded characters.
#[verifier::external_body]
pub(crate) fn utf8_decode(bytes: &[u8]) -> (r: Option<String>)
    ensures
        r is Some <==> vstd::utf8::valid_utf8(bytes@),
        r matches Some(s) ==> s@ == vstd::utf8::decode_utf8(bytes@),
{
    match std::str::from_utf8(bytes) {
        Ok(s) => Some(s.to_string()),
        Err(_) => None,
    }
}

/// Whole seconds since the Unix epoch from `SystemTime::now` (0 when the
/// clock is before the epoch). Depends on the clock; nothing is claimed.
#[verifier::external_body]
pub(crate) fn unix_time_secs() -> (t: u64) {
    std::time::SystemTime::now().duration_since(std::time::UNIX_EPOCH).map(|d| d.as_secs()).unwrap_or(
        0,
    )
}

/// The current Unix time in seconds as a signed number (values beyond
/// `i64::MAX` wrap, as a cast does).
pub fn unix_now_secs() -> (t: i64) {
    let s = unix_time_secs();
    #[verifier::truncate]
    (s as i64)
}

/// SHA-256 of the UTF-8 bytes of a text, as lower-case hex.
pub open spec fn text_hash(t: Seq<char>) -> Seq<char> {
    hex_lower(sha256(vstd::utf8::encode_utf8(t)))
}

/// Lower-case hex SHA-256 of the UTF-8 bytes of `t`.
pub fn hash_hex(t: &str) -> (h: String)
    ensures
        h@ == text_hash(t@),
        h@.len() == 64,
{
    let d = sha256_digest(t.as_bytes());
    hex_encode(d.as_slice())
}

/// A fresh secret: `prefix` followed by the hex of `bytes`.
pub fn secret_from_bytes(prefix: &str, bytes: &[u8]) -> (s: String)
    ensures
        s@ == prefix@ + hex_lower(bytes@),
{
    let h = hex_encode(bytes);
    let mut v = crate::text::str_chars(prefix);
    crate::text::append_chars(&mut v, &crate::text::str_chars(h.as_str()));
    crate::text::string_from_chars(v.as_slice())
}

/// A fresh UUID in hyphenated text.
pub fn random_uuid_text() -> (s: String)
    ensures
        exists|u: u128| s@ == uuid_text(u),
{
    let u = new_uuid_v4();
    uuid_hyphenated(u)
}

} // verus!
