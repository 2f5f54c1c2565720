//! Listen addresses (loopback only) and the run-time configuration.
use vstd::prelude::*;

use crate::error::CoreError;
use crate::text::{append_chars, append_str, decimal, decimal_chars, string_from_chars};

verus! {

/// An IP address: four octets or eight 16-bit segments.
#[derive(Debug, Clone, Copy, PartialEq, Eq)]
pub enum IpAddress {
    /// IPv4.
    V4(u8, u8, u8, u8),
    /// IPv6.
    V6(u16, u16, u16, u16, u16, u16, u16, u16),
}

/// A socket address: IP, port and (IPv6) scope id.
#[derive(Debug, Clone, Copy, PartialEq, Eq)]
pub struct SocketAddress {
    /// IP address.
    pub ip: IpAddress,
    /// Port.
    pub port: u16,
    /// IPv6 scope id (0 for none; unused for IPv4).
    pub scope_id: u32,
}

/// `127.0.0.0/8` or `::1`.
pub open spec fn is_loopback(ip: IpAddress) -> bool {
    match ip {
        IpAddress::V4(a, _, _, _) => a == 127,
        IpAddress::V6(a, b, c, d, e, f, g, h) => a == 0 && b == 0 && c == 0 && d == 0 && e == 0
            && f == 0 && g == 0 && h == 1,
    }
}

/// `0.0.0.0` or `::`.
pub open spec fn is_unspecified(ip: IpAddress) -> bool {
    match ip {
        IpAddress::V4(a, b, c, d) => a == 0 && b == 0 && c == 0 && d == 0,
        IpAddress::V6(a, b, c, d, e, f, g, h) => a == 0 && b == 0 && c == 0 && d == 0 && e == 0
            && f == 0 && g == 0 && h == 0,
    }
}

/// The loopback address of the same family.
pub open spec fn localhost_of(ip: IpAddress) -> IpAddress {
    match ip {
        IpAddress::V4(..) => IpAddress::V4(127, 0, 0, 1),
        IpAddress::V6(..) => IpAddress::V6(0, 0, 0, 0, 0, 0, 0, 1),
    }
}

/// The eight segments of an IPv6 address.
pub open spec fn segments(ip: IpAddress) -> Seq<u16> {
    match ip {
        IpAddress::V6(a, b, c, d, e, f, g, h) => seq![a, b, c, d, e, f, g, h],
        IpAddress::V4(..) => Seq::empty(),
    }
}

/// Lower-case hexadecimal without leading zeros (`{:x}`).
pub open spec fn hex_text(n: nat) -> Seq<char>
    decreases n,
{
    if n < 16 {
        seq![crate::digest::hex_digit_lower(n as int)]
    } else {
        hex_text(n / 16).push(crate::digest::hex_digit_lower((n % 16) as int))
    }
}

/// Segments `s[lo..hi]` in hex joined by `:`.
pub open spec fn hex_join(s: Seq<u16>, lo: int, hi: int) -> Seq<char>
    decreases hi - lo,
{
    if hi <= lo {
        Seq::empty()
    } else if hi == lo + 1 {
        hex_text(s[lo] as nat)
    } else {
        hex_join(s, lo, hi - 1) + seq![':'] + hex_text(s[hi - 1] as nat)
    }
}

/// The longest run of zero segments seen scanning up to `i`: returns
/// (longest start, longest length, current start, current length); the
/// first of equally long runs wins.
pub open spec fn zero_scan(s: Seq<u16>, i: int) -> (int, int, int, int)
    decreases i,
{
    if i <= 0 {
        (0, 0, 0, 0)
    } else {
        let (ls, ll, cs, cl) = zero_scan(s, i - 1);
        if s[i - 1] == 0 {
            let ncs = if cl == 0 {
                i - 1
            } else {
                cs
            };
            let ncl = cl + 1;
            if ncl > ll {
                (ncs, ncl, ncs, ncl)
            } else {
                (ls, ll, ncs, ncl)
            }
        } else {
            (ls, ll, 0, 0)
        }
    }
}

/// Dotted-decimal IPv4 text.
pub open spec fn v4_text(a: u8, b: u8, c: u8, d: u8) -> Seq<char> {
    decimal(a as nat) + seq!['.'] + decimal(b as nat) + seq!['.'] + decimal(c as nat) + seq!['.']
        + decimal(d as nat)
}

/// Text of an IP address as `Display` writes it: dotted decimal for IPv4;
/// for IPv6 `::ffff:a.b.c.d` when IPv4-mapped, else hex segments with the
/// first longest run of two or more zero segments written `::`.
pub open spec fn ip_text(ip: IpAddress) -> Seq<char> {
    match ip {
        IpAddress::V4(a, b, c, d) => v4_text(a, b, c, d),
        IpAddress::V6(a, b, c, d, e, f, g, h) => if a == 0 && b == 0 && c == 0 && d == 0 && e == 0
            && f == 0xffff {
            "::ffff:"@ + v4_text((g / 256) as u8, (g % 256) as u8, (h / 256) as u8, (h % 256) as u8)
        } else {
            let s = segments(ip);
            let (ls, ll, _, _) = zero_scan(s, 8);
            if ll > 1 {
                hex_join(s, 0, ls) + "::"@ + hex_join(s, ls + ll, 8)
            } else {
                hex_join(s, 0, 8)
            }
        },
    }
}

/// Text of a socket address as `Display` writes it: `ip:port` for IPv4,
/// `[ip]:port` (with `%scope` when the scope id is nonzero) for IPv6.
pub open spec fn socket_text(a: SocketAddress) -> Seq<char> {
    match a.ip {
        IpAddress::V4(..) => ip_text(a.ip) + seq![':'] + decimal(a.port as nat),
        IpAddress::V6(..) => if a.scope_id == 0 {
            seq!['['] + ip_text(a.ip) + "]:"@ + decimal(a.port as nat)
        } else {
            seq!['['] + ip_text(a.ip) + seq!['%'] + decimal(a.scope_id as nat) + "]:"@ + decimal(
                a.port as nat,
            )
        },
    }
}

fn hex_digit(d: u16) -> (c: char)
    requires
        d < 16,
    ensures
        c == crate::digest::hex_digit_lower(d as int),
{
    if d < 10 {
        if d == 0 { '0' } else if d == 1 { '1' } else if d == 2 { '2' } else if d == 3 { '3' }
        else if d == 4 { '4' } else if d == 5 { '5' } else if d == 6 { '6' } else if d == 7 { '7' }
        else if d == 8 { '8' } else { '9' }
    } else if d == 10 {
        'a'
    } else if d == 11 {
        'b'
    } else if d == 12 {
        'c'
    } else if d == 13 {
        'd'
    } else if d == 14 {
        'e'
    } else {
        'f'
    }
}

fn hex_chars(n: u16) -> (v: Vec<char>)
    ensures
        v@ == hex_text(n as nat),
    decreases n,
{
    if n < 16 {
        let mut v: Vec<char> = Vec::new();
        v.push(hex_digit(n));
        assert(v@ =~= seq![crate::digest::hex_digit_lower(n as int)]);
        v
    } else {
        let mut v = hex_chars(n / 16);
        v.push(hex_digit(n % 16));
        v
    }
}

fn hex_join_chars(s: &Vec<u16>, lo: usize, hi: usize) -> (v: Vec<char>)
    requires
        lo <= hi <= s@.len(),
    ensures
        v@ == hex_join(s@, lo as int, hi as int),
{
    let mut v: Vec<char> = Vec::new();
    if hi == lo {
        return v;
    }
    let mut k = lo + 1;
    v = hex_chars(s[lo]);
    while k < hi
        invariant
            lo < k <= hi <= s@.len(),
            v@ == hex_join(s@, lo as int, k as int),
        decreases hi - k,
    {
        v.push(':');
        let h = hex_chars(s[k]);
        append_chars(&mut v, &h);
        assert(v@ =~= hex_join(s@, lo as int, k as int) + seq![':'] + hex_text(s@[k as int] as nat));
        k = k + 1;
    }
    v
}

fn v4_chars(a: u8, b: u8, c: u8, d: u8) -> (v: Vec<char>)
    ensures
        v@ == v4_text(a, b, c, d),
{
    let mut v = decimal_chars(a as u64);
    v.push('.');
    append_chars(&mut v, &decimal_chars(b as u64));
    v.push('.');
    append_chars(&mut v, &decimal_chars(c as u64));
    v.push('.');
    append_chars(&mut v, &decimal_chars(d as u64));
    assert(v@ =~= v4_text(a, b, c, d));
    v
}

/// The text of an IP address, as `Display` writes it.
pub fn ip_to_text(ip: IpAddress) -> (v: Vec<char>)
    ensures
        v@ == ip_text(ip),
{
    match ip {
        IpAddress::V4(a, b, c, d) => v4_chars(a, b, c, d),
        IpAddress::V6(a, b, c, d, e, f, g, h) => {
            if a == 0 && b == 0 && c == 0 && d == 0 && e == 0 && f == 0xffff {
                let mut v: Vec<char> = Vec::new();
                append_str(&mut v, "::ffff:");
                append_chars(
                    &mut v,
                    &v4_chars((g / 256) as u8, (g % 256) as u8, (h / 256) as u8, (h % 256) as u8),
                );
                return v;
            }
            let s: Vec<u16> = vec![a, b, c, d, e, f, g, h];
            assert(s@ =~= segments(ip));
            let mut ls: usize = 0;
            let mut ll: usize = 0;
            let mut cs: usize = 0;
            let mut cl: usize = 0;
            let mut i: usize = 0;
            while i < 8
                invariant
                    i <= 8,
                    s@ == segments(ip),
                    s@.len() == 8,
                    zero_scan(s@, i as int) == (ls as int, ll as int, cs as int, cl as int),
                    ls + ll <= i,
                    cl <= i,
                    cs + cl <= i,
                    cl > 0 ==> cs + cl == i,
                decreases 8 - i,
            {
                if s[i] == 0 {
                    if cl == 0 {
                        cs = i;
                    }
                    cl = cl + 1;
                    if cl > ll {
                        ls = cs;
                        ll = cl;
                    }
                } else {
                    cs = 0;
                    cl = 0;
                }
                i = i + 1;
            }
            if ll > 1 {
                let mut v = hex_join_chars(&s, 0, ls);
                append_str(&mut v, "::");
                append_chars(&mut v, &hex_join_chars(&s, ls + ll, 8));
                v
            } else {
                hex_join_chars(&s, 0, 8)
            }
        },
    }
}

/// The text of a socket address, as `Display` writes it.
pub fn socket_to_text(a: SocketAddress) -> (v: Vec<char>)
    ensures
        v@ == socket_text(a),
{
    match a.ip {
        IpAddress::V4(..) => {
            let mut v = ip_to_text(a.ip);
            v.push(':');
            append_chars(&mut v, &decimal_chars(a.port as u64));
            v
        },
        IpAddress::V6(..) => {
            let mut v: Vec<char> = Vec::new();
            v.push('[');
            append_chars(&mut v, &ip_to_text(a.ip));
            if a.scope_id != 0 {
                v.push('%');
                append_chars(&mut v, &decimal_chars(a.scope_id as u64));
            }
            append_str(&mut v, "]:");
            append_chars(&mut v, &decimal_chars(a.port as u64));
            assert(v@ =~= socket_text(a));
            v
        },
    }
}

/// What `require_local_listen` gives: the address itself when loopback,
/// the loopback address of the same family and port when unspecified, else
/// an error.
pub open spec fn local_listen(a: SocketAddress) -> Option<SocketAddress> {
    if is_loopback(a.ip) {
        Some(a)
    } else if is_unspecified(a.ip) {
        Some(SocketAddress { ip: localhost_of(a.ip), port: a.port, scope_id: 0 })
    } else {
        None
    }
}

/// Forces a loopback listen address: `0.0.0.0` and `::` become the
/// loopback address; any other non-loopback address is refused.
pub fn require_local_listen(addr: SocketAddress) -> (r: Result<SocketAddress, CoreError>)
    ensures
        local_listen(addr) matches Some(a) ==> r == Ok::<SocketAddress, CoreError>(a),
        local_listen(addr) is None ==> (r matches Err(CoreError::InvalidArgument(m)) && m@
            == "astral-core 仅监听本机，不支持 "@ + socket_text(addr)),
{
    let loopback = match addr.ip {
        IpAddress::V4(a, _, _, _) => a == 127,
        IpAddress::V6(a, b, c, d, e, f, g, h) => a == 0 && b == 0 && c == 0 && d == 0 && e == 0
            && f == 0 && g == 0 && h == 1,
    };
    if loopback {
        return Ok(addr);
    }
    let unspecified = match addr.ip {
        IpAddress::V4(a, b, c, d) => a == 0 && b == 0 && c == 0 && d == 0,
        IpAddress::V6(a, b, c, d, e, f, g, h) => a == 0 && b == 0 && c == 0 && d == 0 && e == 0
            && f == 0 && g == 0 && h == 0,
    };
    if unspecified {
        let ip = match addr.ip {
            IpAddress::V4(..) => IpAddress::V4(127, 0, 0, 1),
            IpAddress::V6(..) => IpAddress::V6(0, 0, 0, 0, 0, 0, 0, 1),
        };
        return Ok(SocketAddress { ip, port: addr.port, scope_id: 0 });
    }
    let mut msg: Vec<char> = Vec::new();
    append_str(&mut msg, "astral-core 仅监听本机，不支持 ");
    append_chars(&mut msg, &socket_to_text(addr));
    Err(CoreError::InvalidArgument(string_from_chars(msg.as_slice())))
}

/// An accepted listen address is loopback, keeps its port, and is accepted
/// unchanged a second time.
pub proof fn local_listen_is_idempotent(a: SocketAddress)
    requires
        local_listen(a) is Some,
    ensures
        is_loopback(local_listen(a)->0.ip),
        local_listen(a)->0.port == a.port,
        local_listen(local_listen(a)->0) == local_listen(a),
{
}

/// Version string the daemon reports.
pub const CORE_VERSION: &'static str = "0.1.0";

/// The default listen address `127.0.0.1:50051`.
pub open spec fn default_listen_spec() -> SocketAddress {
    SocketAddress { ip: IpAddress::V4(127, 0, 0, 1), port: 50051, scope_id: 0 }
}

/// The default listen address `127.0.0.1:50051`.
pub fn default_listen() -> (a: SocketAddress)
    ensures
        a == default_listen_spec(),
{
    SocketAddress { ip: IpAddress::V4(127, 0, 0, 1), port: 50051, scope_id: 0 }
}

/// Run-time configuration of the JSON-RPC endpoint and the engine.
#[derive(Debug, Clone)]
pub struct RuntimeConfig {
    /// JSON-RPC listen address (loopback only).
    pub listen: SocketAddress,
    /// Data directory override.
    pub data_dir: Option<String>,
    /// Version reported to clients.
    pub core_version: String,
}

impl Default for RuntimeConfig {
    fn default() -> (c: RuntimeConfig)
        ensures
            c.listen == default_listen_spec(),
            c.data_dir is None,
            c.core_version@ == CORE_VERSION@,
    {
        RuntimeConfig {
            listen: default_listen(),
            data_dir: None,
            core_version: CORE_VERSION.to_string(),
        }
    }
}

/// Builder of a [`RuntimeConfig`].
#[derive(Debug)]
pub struct RuntimeConfigBuilder {
    inner: RuntimeConfig,
}

impl RuntimeConfigBuilder {
    /// A builder holding the default configuration.
    pub fn new() -> (b: RuntimeConfigBuilder)
        ensures
            b.config().listen == default_listen_spec(),
            b.config().data_dir is None,
            b.config().core_version@ == CORE_VERSION@,
    {
        RuntimeConfigBuilder { inner: RuntimeConfig::default() }
    }

    /// The configuration built so far.
    pub closed spec fn config(&self) -> RuntimeConfig {
        self.inner
    }

    /// Sets the listen address (a non-loopback one is refused by `build`).
    pub fn listen(self, addr: SocketAddress) -> (b: RuntimeConfigBuilder)
        ensures
            b.config() == (RuntimeConfig { listen: addr, ..self.config() }),
    {
        let mut inner = self.inner;
        inner.listen = addr;
        RuntimeConfigBuilder { inner }
    }

    /// Sets the data directory override.
    pub fn data_dir(self, dir: String) -> (b: RuntimeConfigBuilder)
        ensures
            b.config() == (RuntimeConfig { data_dir: Some(dir), ..self.config() }),
    {
        let mut inner = self.inner;
        inner.data_dir = Some(dir);
        RuntimeConfigBuilder { inner }
    }

    /// The configuration, with its listen address forced to loopback.
    pub fn build(self) -> (r: Result<RuntimeConfig, CoreError>)
        ensures
            local_listen(self.config().listen) matches Some(a) ==> (r matches Ok(c) && c
                == (RuntimeConfig { listen: a, ..self.config() })),
            local_listen(self.config().listen) is None ==> (r matches Err(
                CoreError::InvalidArgument(m),
            ) && m@ == "astral-core 仅监听本机，不支持 "@ + socket_text(self.config().listen)),
    {
        let mut cfg = self.inner;
        match require_local_listen(cfg.listen) {
            Ok(a) => {
                cfg.listen = a;
                Ok(cfg)
            },
            Err(e) => Err(e),
        }
    }
}

} // verus!
