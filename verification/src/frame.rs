//! gRPC wire details used when calls are tunnelled to agents: the
//! length-prefixed message frame, `grpc-message` percent encoding, bearer
//! tokens, the admin gate and the per-call token check.
use vstd::prelude::*;

use std::sync::Arc;

use crate::text::{
    ends_with_chars, has_prefix, has_suffix, signed_decimal,
    signed_decimal_chars, starts_with_chars, str_chars, str_eq, string_from_chars, trim,
    trim_chars, drop_chars,
};
use crate::tokens::{TokenStore, token_verifies};

verus! {

/// gRPC status code `InvalidArgument`.
pub const CODE_INVALID_ARGUMENT: i32 = 3;

/// gRPC status code `Unimplemented`.
pub const CODE_UNIMPLEMENTED: i32 = 12;

/// gRPC status code `Internal`.
pub const CODE_INTERNAL: i32 = 13;

/// gRPC status code `Unavailable`.
pub const CODE_UNAVAILABLE: i32 = 14;

/// gRPC status code `Unauthenticated`.
pub const CODE_UNAUTHENTICATED: i32 = 16;

/// Metadata key by which a client names the node to tunnel a call to.
pub const META_NODE_ID: &'static str = "x-astral-node-id";

/// A gRPC status: numeric code and message.
#[derive(Debug, Clone, PartialEq, Eq)]
pub struct RpcStatus {
    /// Status code.
    pub code: i32,
    /// Message.
    pub message: String,
}

/// The status code tonic gives a number: itself for 0..=16, else
/// `Unknown` (2).
pub open spec fn normalized_code(code: i32) -> i32 {
    if 0 <= code <= 16 {
        code
    } else {
        2
    }
}

/// `tonic::Code::from_i32`, as a number: codes 0 to 16 map to themselves,
/// anything else to `Unknown` (2), as the crate's `From<i32>` shows.
#[verifier::external_body]
pub(crate) fn code_from_i32(code: i32) -> (c: i32)
    ensures
        c == normalized_code(code),
{
    tonic::Code::from_i32(code) as i32
}

/// Big-endian value of four bytes.
pub open spec fn be32(b0: u8, b1: u8, b2: u8, b3: u8) -> u32 {
    ((b0 as u32) << 24u32) | ((b1 as u32) << 16u32) | ((b2 as u32) << 8u32) | (b3 as u32)
}

/// Errors of an incoming gRPC frame.
#[derive(Debug, Clone, Copy, PartialEq, Eq)]
pub enum FrameError {
    /// Fewer than five bytes.
    TooShort,
    /// The compressed flag is set.
    Compressed,
    /// The declared length exceeds the body.
    LengthMismatch,
}

/// What decoding the body `b` of a unary gRPC call gives.
pub open spec fn decode_spec(b: Seq<u8>) -> Result<Seq<u8>, FrameError> {
    if b.len() < 5 {
        Err(FrameError::TooShort)
    } else if b[0] != 0 {
        Err(FrameError::Compressed)
    } else {
        let n = be32(b[1], b[2], b[3], b[4]) as int;
        if b.len() < 5 + n {
            Err(FrameError::LengthMismatch)
        } else {
            Ok(b.subrange(5, 5 + n))
        }
    }
}

/// The frame of message `m`: flag 0, the length (modulo 2^32) big-endian,
/// then the message.
pub open spec fn encode_spec(m: Seq<u8>) -> Seq<u8> {
    let n = (m.len() % 0x1_0000_0000) as u32;
    seq![0u8, (n >> 24u32) as u8, (n >> 16u32) as u8, (n >> 8u32) as u8, n as u8] + m
}

impl FrameError {
    /// The status a bad frame is answered with.
    pub fn to_status(&self) -> (s: RpcStatus)
        ensures
            *self == FrameError::TooShort ==> s.code == CODE_INVALID_ARGUMENT && s.message@
                == "gRPC 帧过短"@,
            *self == FrameError::Compressed ==> s.code == CODE_UNIMPLEMENTED && s.message@
                == "不支持压缩 gRPC 帧"@,
            *self == FrameError::LengthMismatch ==> s.code == CODE_INVALID_ARGUMENT
                && s.message@ == "gRPC 帧长度不匹配"@,
    {
        match self {
            FrameError::TooShort => RpcStatus {
                code: CODE_INVALID_ARGUMENT,
                message: "gRPC 帧过短".to_string(),
            },
            FrameError::Compressed => RpcStatus {
                code: CODE_UNIMPLEMENTED,
                message: "不支持压缩 gRPC 帧".to_string(),
            },
            FrameError::LengthMismatch => RpcStatus {
                code: CODE_INVALID_ARGUMENT,
                message: "gRPC 帧长度不匹配".to_string(),
            },
        }
    }
}

/// The message inside the body of a unary gRPC call (uncompressed frame).
pub fn decode_grpc_payload(body: &[u8]) -> (r: Result<Vec<u8>, FrameError>)
    ensures
        match (r, decode_spec(body@)) {
            (Ok(v), Ok(m)) => v@ == m,
            (Err(e), Err(f)) => e == f,
            _ => false,
        },
{
    if body.len() < 5 {
        return Err(FrameError::TooShort);
    }
    if body[0] != 0 {
        return Err(FrameError::Compressed);
    }
    let n: u32 = ((body[1] as u32) << 24u32) | ((body[2] as u32) << 16u32) | ((body[3] as u32)
        << 8u32) | (body[4] as u32);
    let len = n as usize;
    if body.len() - 5 < len {
        return Err(FrameError::LengthMismatch);
    }
    let mut out: Vec<u8> = Vec::new();
    let mut k: usize = 0;
    while k < len
        invariant
            5 + len <= body.len(),
            k <= len,
            out@ == body@.subrange(5, 5 + k),
        decreases len - k,
    {
        out.push(body[5 + k]);
        assert(out@ =~= body@.subrange(5, 5 + k + 1));
        k = k + 1;
    }
    Ok(out)
}

/// The gRPC frame of `msg` (the length is taken modulo 2^32).
pub fn encode_grpc_payload(msg: &[u8]) -> (r: Vec<u8>)
    ensures
        r@ == encode_spec(msg@),
{
    let n: u32 = ((msg.len() as u64) % 0x1_0000_0000u64) as u32;
    let mut out: Vec<u8> = Vec::new();
    out.push(0u8);
    out.push((n >> 24u32) as u8);
    out.push((n >> 16u32) as u8);
    out.push((n >> 8u32) as u8);
    out.push(n as u8);
    let mut k: usize = 0;
    while k < msg.len()
        invariant
            k <= msg@.len(),
            out@ == seq![0u8, (n >> 24u32) as u8, (n >> 16u32) as u8, (n >> 8u32) as u8, n as u8]
                + msg@.subrange(0, k as int),
        decreases msg@.len() - k,
    {
        out.push(msg[k]);
        assert(out@ =~= seq![
            0u8,
            (n >> 24u32) as u8,
            (n >> 16u32) as u8,
            (n >> 8u32) as u8,
            n as u8,
        ] + msg@.subrange(0, k + 1));
        k = k + 1;
    }
    assert(msg@.subrange(0, msg@.len() as int) =~= msg@);
    out
}

/// Decoding a frame gives back the message framed, for messages shorter
/// than 4 GiB.
pub proof fn frame_round_trip(m: Seq<u8>)
    requires
        m.len() < 0x1_0000_0000,
    ensures
        decode_spec(encode_spec(m)) == Ok::<Seq<u8>, FrameError>(m),
{
    let n = (m.len() % 0x1_0000_0000) as u32;
    assert(be32((n >> 24u32) as u8, (n >> 16u32) as u8, (n >> 8u32) as u8, n as u8) == n)
        by (bit_vector);
    let e = encode_spec(m);
    assert(e.subrange(5, 5 + n as int) =~= m);
}

/// Upper-case hexadecimal digit for `n < 16`.
pub open spec fn hex_digit_upper(n: int) -> char {
    if n < 10 {
        crate::text::digit_char(n)
    } else if n == 10 {
        'A'
    } else if n == 11 {
        'B'
    } else if n == 12 {
        'C'
    } else if n == 13 {
        'D'
    } else if n == 14 {
        'E'
    } else {
        'F'
    }
}

/// A byte written as itself in a `grpc-message`: ASCII letters, digits
/// and `-_.~`.
pub open spec fn is_unreserved(b: u8) -> bool {
    (0x30 <= b <= 0x39) || (0x41 <= b <= 0x5A) || (0x61 <= b <= 0x7A) || b == 0x2D || b == 0x5F
        || b == 0x2E || b == 0x7E
}

/// How one byte of the UTF-8 text is written: an unreserved byte as its
/// character, any other as `%` and two upper-case hex digits.
pub open spec fn percent_byte(b: u8) -> Seq<char> {
    if is_unreserved(b) {
        seq![b as char]
    } else {
        seq!['%', hex_digit_upper(b as int / 16), hex_digit_upper(b as int % 16)]
    }
}

/// Percent encoding of a byte string, byte by byte.
pub open spec fn percent_bytes(b: Seq<u8>) -> Seq<char>
    decreases b.len(),
{
    if b.len() == 0 {
        Seq::empty()
    } else {
        percent_byte(b[0]) + percent_bytes(b.drop_first())
    }
}

/// Percent encoding of a text: of its UTF-8 bytes.
pub open spec fn percent_spec(s: Seq<char>) -> Seq<char> {
    percent_bytes(vstd::utf8::encode_utf8(s))
}

/// A hexadecimal digit (either case).
pub open spec fn is_hex_char(c: char) -> bool {
    ('0' <= c <= '9') || ('A' <= c <= 'F') || ('a' <= c <= 'f')
}

/// The value of a hexadecimal digit.
pub open spec fn hex_value(c: char) -> int {
    if '0' <= c <= '9' {
        c as int - '0' as int
    } else if 'A' <= c <= 'F' {
        c as int - 'A' as int + 10
    } else {
        c as int - 'a' as int + 10
    }
}

/// Percent decoding: `%` and two hex digits give that byte, any other
/// character gives its low byte.
pub open spec fn percent_decode(t: Seq<char>) -> Seq<u8>
    decreases t.len(),
{
    if t.len() == 0 {
        Seq::empty()
    } else if t.len() >= 3 && t[0] == '%' && is_hex_char(t[1]) && is_hex_char(t[2]) {
        seq![(16 * hex_value(t[1]) + hex_value(t[2])) as u8] + percent_decode(t.subrange(3, t.len() as int))
    } else {
        seq![t[0] as u8] + percent_decode(t.drop_first())
    }
}

proof fn lemma_percent_bytes_push(b: Seq<u8>, x: u8)
    ensures
        percent_bytes(b.push(x)) == percent_bytes(b) + percent_byte(x),
    decreases b.len(),
{
    if b.len() == 0 {
        assert(b.push(x).drop_first() =~= Seq::<u8>::empty());
        assert(percent_bytes(Seq::<u8>::empty()) == Seq::<char>::empty());
        assert(percent_byte(x) + Seq::<char>::empty() =~= percent_byte(x));
    } else {
        assert(b.push(x).drop_first() =~= b.drop_first().push(x));
        lemma_percent_bytes_push(b.drop_first(), x);
        assert(percent_byte(b[0]) + (percent_bytes(b.drop_first()) + percent_byte(x))
            =~= (percent_byte(b[0]) + percent_bytes(b.drop_first())) + percent_byte(x));
    }
}

proof fn lemma_hex_digit(n: int)
    requires
        0 <= n < 16,
    ensures
        is_hex_char(hex_digit_upper(n)),
        hex_value(hex_digit_upper(n)) == n,
        (hex_digit_upper(n) as u32) < 128,
{
}

proof fn lemma_percent_byte(x: u8, rest: Seq<char>)
    ensures
        percent_decode(percent_byte(x) + rest) == seq![x] + percent_decode(rest),
        forall|i: int| 0 <= i < percent_byte(x).len() ==> (#[trigger] percent_byte(x)[i] as u32) < 128,
{
    let t = percent_byte(x) + rest;
    if is_unreserved(x) {
        assert(t[0] == x as char);
        assert((x as char) as u8 == x);
        assert(t.drop_first() =~= rest);
    } else {
        lemma_hex_digit(x as int / 16);
        lemma_hex_digit(x as int % 16);
        assert(t[0] == '%' && t[1] == hex_digit_upper(x as int / 16) && t[2] == hex_digit_upper(x as int % 16));
        assert(t.subrange(3, t.len() as int) =~= rest);
        assert((16 * (x as int / 16) + x as int % 16) as u8 == x);
    }
}

/// Percent encoding can be undone: decoding gives back the bytes, and
/// every character written is ASCII.
pub proof fn percent_bytes_round_trip(b: Seq<u8>)
    ensures
        percent_decode(percent_bytes(b)) == b,
        forall|i: int| 0 <= i < percent_bytes(b).len() ==> (#[trigger] percent_bytes(b)[i] as u32) < 128,
    decreases b.len(),
{
    if b.len() > 0 {
        percent_bytes_round_trip(b.drop_first());
        lemma_percent_byte(b[0], percent_bytes(b.drop_first()));
        assert(seq![b[0]] + b.drop_first() =~= b);
        let p = percent_byte(b[0]);
        let q = percent_bytes(b.drop_first());
        assert forall|i: int| 0 <= i < percent_bytes(b).len() implies (#[trigger] percent_bytes(b)[i] as u32) < 128 by {
            if i < p.len() {
                assert(percent_bytes(b)[i] == p[i]);
            } else {
                assert(percent_bytes(b)[i] == q[i - p.len()]);
            }
        }
    }
}

/// A `grpc-message` encoded here decodes, as UTF-8, to the text it came
/// from, and is ASCII.
pub proof fn percent_round_trip(s: Seq<char>)
    ensures
        vstd::utf8::decode_utf8(percent_decode(percent_spec(s))) == s,
        forall|i: int| 0 <= i < percent_spec(s).len() ==> (#[trigger] percent_spec(s)[i] as u32) < 128,
{
    percent_bytes_round_trip(vstd::utf8::encode_utf8(s));
    vstd::utf8::encode_utf8_decode_utf8(s);
}

fn hex_upper(n: u32) -> (c: char)
    requires
        n < 16,
    ensures
        c == hex_digit_upper(n as int),
{
    if n < 10 {
        if n == 0 { '0' } else if n == 1 { '1' } else if n == 2 { '2' } else if n == 3 { '3' }
        else if n == 4 { '4' } else if n == 5 { '5' } else if n == 6 { '6' } else if n == 7 { '7' }
        else if n == 8 { '8' } else { '9' }
    } else if n == 10 {
        'A'
    } else if n == 11 {
        'B'
    } else if n == 12 {
        'C'
    } else if n == 13 {
        'D'
    } else if n == 14 {
        'E'
    } else {
        'F'
    }
}

/// Percent-encodes a `grpc-message` value: each UTF-8 byte that is not an
/// ASCII letter, digit or `-_.~` becomes `%XX`.
pub fn percent_encode(s: &str) -> (r: String)
    ensures
        r@ == percent_spec(s@),
{
    let bytes = s.as_bytes();
    let mut out: Vec<char> = Vec::new();
    let mut i: usize = 0;
    while i < bytes.len()
        invariant
            i <= bytes@.len(),
            bytes@ == vstd::utf8::encode_utf8(s@),
            out@ == percent_bytes(bytes@.take(i as int)),
        decreases bytes@.len() - i,
    {
        let b = bytes[i];
        proof {
            assert(bytes@.take(i + 1) =~= bytes@.take(i as int).push(b));
            lemma_percent_bytes_push(bytes@.take(i as int), b);
        }
        let ghost before = out@;
        if (0x30 <= b && b <= 0x39) || (0x41 <= b && b <= 0x5A) || (0x61 <= b && b <= 0x7A) || b
            == 0x2D || b == 0x5F || b == 0x2E || b == 0x7E {
            out.push(b as char);
        } else {
            out.push('%');
            out.push(hex_upper((b / 16) as u32));
            out.push(hex_upper((b % 16) as u32));
        }
        assert(out@ =~= before + percent_byte(b));
        i = i + 1;
    }
    assert(bytes@.take(i as int) =~= bytes@);
    string_from_chars(out.as_slice())
}

/// The token of an `authorization` value `Bearer <token>` (or `bearer`),
/// trimmed; `None` when missing or empty.
pub open spec fn bearer_spec(value: Seq<char>) -> Option<Seq<char>> {
    let rest = if has_prefix(value, "Bearer "@) {
        Some(value.subrange(7, value.len() as int))
    } else if has_prefix(value, "bearer "@) {
        Some(value.subrange(7, value.len() as int))
    } else {
        None
    };
    match rest {
        None => None,
        Some(r) => if trim(r).len() == 0 {
            None
        } else {
            Some(trim(r))
        },
    }
}

/// Extracts the bearer token from an `authorization` header value.
pub fn extract_bearer(value: Option<&str>) -> (r: Option<String>)
    ensures
        value is None ==> r is None,
        value matches Some(v) ==> match (r, bearer_spec(v@)) {
            (Some(t), Some(u)) => t@ == u,
            (None, None) => true,
            _ => false,
        },
{
    let v = match value {
        Some(v) => v,
        None => return None,
    };
    proof {
        reveal_strlit("Bearer ");
        reveal_strlit("bearer ");
    }
    let cs = str_chars(v);
    let upper = str_chars("Bearer ");
    let lower = str_chars("bearer ");
    let rest = if starts_with_chars(&cs, &upper) {
        drop_chars(&cs, 7)
    } else if starts_with_chars(&cs, &lower) {
        drop_chars(&cs, 7)
    } else {
        return None;
    };
    let t = trim_chars(&rest);
    if t.len() == 0 {
        None
    } else {
        Some(string_from_chars(t.as_slice()))
    }
}

/// The path of the agent session call, which needs no admin token.
pub open spec fn is_agent_session_path(path: Seq<char>) -> bool {
    has_suffix(path, "/AgentSession"@) || has_suffix(path, "AgentSession"@)
}

/// The message a rejected admin call gets.
pub open spec fn admin_reject_message() -> Seq<char> {
    "控制端管理 API 需要 authorization: Bearer <token>（与 --token 相同）"@
}

/// Gate in front of the controller's management API: every call but the
/// agent session needs `authorization: Bearer <admin token>`.
#[derive(Debug, Clone)]
pub struct AdminGateService<S> {
    inner: S,
    admin_token: String,
}

impl<S> AdminGateService<S> {
    /// Wraps `inner`, requiring `admin_token`.
    pub fn new(inner: S, admin_token: String) -> (g: Self)
        ensures
            g.service() == inner,
            g.admin_token() == admin_token@,
    {
        AdminGateService { inner, admin_token }
    }

    /// The wrapped service.
    pub closed spec fn service(&self) -> S {
        self.inner
    }

    /// The wrapped service, for forwarding calls.
    pub fn inner_mut(&mut self) -> (r: &mut S)
        ensures
            *r == old(self).service(),
            final(self).service() == *final(r),
            final(self).admin_token() == old(self).admin_token(),
    {
        &mut self.inner
    }

    /// The wrapped service.
    pub fn inner(&self) -> (r: &S)
        ensures
            *r == self.service(),
    {
        &self.inner
    }

    /// The token required.
    pub closed spec fn admin_token(&self) -> Seq<char> {
        self.admin_token@
    }

    /// Whether a call to `path` with the given `authorization` header value
    /// passes; a refused call is answered `Unauthenticated`.
    pub fn check(&self, path: &str, authorization: Option<&str>) -> (r: Result<(), RpcStatus>)
        ensures
            r is Ok <==> (is_agent_session_path(path@) || (authorization matches Some(a)
                && bearer_spec(a@) == Some(self.admin_token()))),
            r matches Err(s) ==> s.code == CODE_UNAUTHENTICATED && s.message@
                == admin_reject_message(),
    {
        let p = str_chars(path);
        if ends_with_chars(&p, &str_chars("/AgentSession")) || ends_with_chars(
            &p,
            &str_chars("AgentSession"),
        ) {
            return Ok(());
        }
        let ok = match extract_bearer(authorization) {
            Some(t) => str_eq(t.as_str(), self.admin_token.as_str()),
            None => false,
        };
        if ok {
            Ok(())
        } else {
            Err(
                RpcStatus {
                    code: CODE_UNAUTHENTICATED,
                    message: "控制端管理 API 需要 authorization: Bearer <token>（与 --token 相同）".to_string(),
                },
            )
        }
    }
}

/// Per-call check of `authorization: Bearer <token>` against the token
/// store.
#[derive(Debug, Clone)]
pub struct AuthInterceptor {
    store: Arc<TokenStore>,
}

impl AuthInterceptor {
    /// An interceptor checking against `store`.
    pub fn new(store: Arc<TokenStore>) -> (a: Self)
        ensures
            a.store() == *store,
    {
        AuthInterceptor { store }
    }

    /// The store checked against.
    pub closed spec fn store(&self) -> TokenStore {
        *self.store
    }

    /// Checks a call at time `now`: a missing bearer token and a token that
    /// is not valid are both answered `Unauthenticated`.
    pub fn check_at(&self, authorization: Option<&str>, now: i64) -> (r: Result<(), RpcStatus>)
        ensures
            (authorization is None || bearer_spec(authorization->0@) is None) ==> (r matches Err(
                s,
            ) && s.code == CODE_UNAUTHENTICATED && s.message@ == "缺少 authorization: Bearer <token>"@),
            (authorization is Some && bearer_spec(authorization->0@) is Some) ==> (r is Ok
                <==> token_verifies(
                self.store().records(),
                bearer_spec(authorization->0@)->0,
                now as int,
            )),
            (authorization is Some && bearer_spec(authorization->0@) is Some) ==> (r matches Err(s)
                ==> s.message@ == "无效或已吊销的 API Token"@),
            r matches Err(s) ==> s.code == CODE_UNAUTHENTICATED,
    {
        let token = match extract_bearer(authorization) {
            Some(t) => t,
            None => {
                return Err(
                    RpcStatus {
                        code: CODE_UNAUTHENTICATED,
                        message: "缺少 authorization: Bearer <token>".to_string(),
                    },
                );
            },
        };
        if !self.store.verify_plaintext_at(token.as_str(), now) {
            return Err(
                RpcStatus {
                    code: CODE_UNAUTHENTICATED,
                    message: "无效或已吊销的 API Token".to_string(),
                },
            );
        }
        Ok(())
    }

    /// Checks a call now (see [`Self::check_at`]).
    pub fn check(&self, authorization: Option<&str>) -> (r: Result<(), RpcStatus>)
        ensures
            (authorization is None || bearer_spec(authorization->0@) is None) ==> r is Err,
            r matches Err(s) ==> s.code == CODE_UNAUTHENTICATED,
            (authorization is Some && bearer_spec(authorization->0@) is Some) ==> exists|now: i64|
                (r is Ok <==> token_verifies(
                    self.store().records(),
                    bearer_spec(authorization->0@)->0,
                    now as int,
                )),
    {
        let now = crate::digest::unix_now_secs();
        self.check_at(authorization, now)
    }
}

/// Header entries forwarded with a tunnelled call: all but the node
/// selector, pseudo-headers (`:`-prefixed) and values that are not text.
pub open spec fn forwarded(h: Seq<(String, Option<String>)>) -> Seq<(String, String)>
    decreases h.len(),
{
    if h.len() == 0 {
        Seq::empty()
    } else {
        let (k, v) = h.last();
        let rest = forwarded(h.drop_last());
        if k@ == META_NODE_ID@ || has_prefix(k@, seq![':']) || v is None {
            rest
        } else {
            rest.push((k, v->0))
        }
    }
}

/// Picks the metadata to forward with a tunnelled call.
pub fn tunnel_metadata(headers: &Vec<(String, Option<String>)>) -> (r: Vec<(String, String)>)
    ensures
        r@ == forwarded(headers@),
{
    let colon = str_chars(":");
    proof {
        reveal_strlit(":");
        assert(colon@ =~= seq![':']);
    }
    let mut r: Vec<(String, String)> = Vec::new();
    let mut i: usize = 0;
    while i < headers.len()
        invariant
            i <= headers@.len(),
            colon@ == seq![':'],
            r@ == forwarded(headers@.take(i as int)),
        decreases headers@.len() - i,
    {
        assert(headers@.take(i + 1).drop_last() =~= headers@.take(i as int));
        let (k, v) = &headers[i];
        let skip = str_eq(k.as_str(), META_NODE_ID) || starts_with_chars(
            &str_chars(k.as_str()),
            &colon,
        );
        if !skip {
            match v {
                Some(val) => {
                    r.push((k.clone(), val.clone()));
                },
                None => {},
            }
        }
        i = i + 1;
    }
    assert(headers@.take(i as int) =~= headers@);
    r
}

/// A call to `full_method` may be tunnelled: the agent session itself
/// cannot.
pub fn check_tunnel_method(full_method: &str) -> (r: Result<(), RpcStatus>)
    ensures
        r is Ok <==> !has_suffix(full_method@, "AgentSession"@),
        r matches Err(s) ==> s.code == CODE_INVALID_ARGUMENT && s.message@
            == "AgentSession 不能经 x-astral-node-id 代理"@,
{
    if ends_with_chars(&str_chars(full_method), &str_chars("AgentSession")) {
        Err(
            RpcStatus {
                code: CODE_INVALID_ARGUMENT,
                message: "AgentSession 不能经 x-astral-node-id 代理".to_string(),
            },
        )
    } else {
        Ok(())
    }
}

/// The answer to a tunnelled call from the agent's reply: a nonzero status
/// becomes that status (codes outside 0..=16 as `Unknown`), else the
/// payload framed.
pub fn tunnel_reply(grpc_status: i32, message: String, payload: &[u8]) -> (r: Result<
    Vec<u8>,
    RpcStatus,
>)
    ensures
        grpc_status != 0 ==> (r matches Err(s) && s.code == normalized_code(grpc_status)
            && s.message == message),
        grpc_status == 0 ==> (r matches Ok(b) && b@ == encode_spec(payload@)),
{
    if grpc_status != 0 {
        return Err(RpcStatus { code: code_from_i32(grpc_status), message });
    }
    Ok(encode_grpc_payload(payload))
}

/// The `grpc-status` and `grpc-message` header values of a status.
pub fn status_headers(status: &RpcStatus) -> (r: (String, String))
    ensures
        r.0@ == signed_decimal(status.code as int),
        r.1@ == percent_spec(status.message@),
{
    let code = string_from_chars(signed_decimal_chars(status.code as i64).as_slice());
    (code, percent_encode(status.message.as_str()))
}

} // verus!
