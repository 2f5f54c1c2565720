//! Recognizing stale processes and earlier layouts, and the decisions of
//! cleanup and migration.
use vstd::prelude::*;

use super::health::ListenerInfo;
use super::SERVICE_GENERATION;
use crate::digest::{str_to_lowercase, unicode_lowercase};
use crate::text::{contains_chars, contains_seq, str_chars};

verus! {

/// The command line belongs to the earlier service layout: after Unicode
/// lower-casing it mentions `core-default` or `instances\default` or
/// `instances/default`.
pub open spec fn legacy_command(cmd: Seq<char>) -> bool {
    let lower = unicode_lowercase(cmd);
    contains_seq(lower, "core-default"@) || contains_seq(lower, "instances\\default"@)
        || contains_seq(lower, "instances/default"@)
}

/// Whether a command line belongs to the earlier service layout.
pub fn is_legacy_command_line(cmd: &str) -> (b: bool)
    ensures
        b == legacy_command(cmd@),
{
    let lower = str_chars(str_to_lowercase(cmd).as_str());
    contains_chars(&lower, &str_chars("core-default")) || contains_chars(
        &lower,
        &str_chars("instances\\default"),
    ) || contains_chars(&lower, &str_chars("instances/default"))
}

/// Whether a command line carries the current generation marker.
pub fn generation_matches(cmd: &str) -> (b: bool)
    ensures
        b == contains_seq(cmd@, SERVICE_GENERATION@),
{
    contains_chars(&str_chars(cmd), &str_chars(SERVICE_GENERATION))
}

/// The command line is an astral-core process (on Windows, ignoring case).
pub open spec fn astral_command(cmd: Seq<char>, windows: bool) -> bool {
    if windows {
        contains_seq(unicode_lowercase(cmd), "astral-core"@)
    } else {
        contains_seq(cmd, "astral-core"@)
    }
}

/// The listener on the service port, given the id of the process that
/// listens (0 when none does) and its command line: whether it is an
/// astral-core process, of the earlier layout, of the current generation.
pub fn find_listener(pid: u32, command_line: Option<String>, windows: bool) -> (r: Option<
    ListenerInfo,
>)
    ensures
        pid == 0 ==> r is None,
        pid != 0 ==> (r matches Some(l) && l.pid == pid && l.command_line == command_line && {
            let t = crate::model::text_or_empty(command_line);
            &&& l.is_astral_core == astral_command(t, windows)
            &&& l.is_legacy == legacy_command(t)
            &&& l.generation_match == contains_seq(t, SERVICE_GENERATION@)
        }),
{
    if pid == 0 {
        return None;
    }
    let text = match &command_line {
        Some(t) => t.clone(),
        None => String::new(),
    };
    let is_astral_core = if windows {
        contains_chars(&str_chars(str_to_lowercase(text.as_str()).as_str()), &str_chars("astral-core"))
    } else {
        contains_chars(&str_chars(text.as_str()), &str_chars("astral-core"))
    };
    Some(
        ListenerInfo {
            pid,
            command_line,
            is_astral_core,
            is_legacy: is_legacy_command_line(text.as_str()),
            generation_match: generation_matches(text.as_str()),
        },
    )
}

/// An ASCII white-space character (`u8::is_ascii_whitespace`).
pub open spec fn ascii_ws(c: char) -> bool {
    c == ' ' || c == '\t' || c == '\n' || c == '\x0C' || c == '\r'
}

/// Value of decimal digit characters.
pub open spec fn digits_value(t: Seq<char>) -> nat
    decreases t.len(),
{
    if t.len() == 0 {
        0
    } else {
        digits_value(t.drop_last()) * 10 + ((t.last() as int - '0' as int) as nat)
    }
}

/// All characters are ASCII digits.
pub open spec fn all_digits(t: Seq<char>) -> bool {
    forall|i: int| 0 <= i < t.len() ==> '0' <= #[trigger] t[i] <= '9'
}

/// `u32::from_str`: an optional `+`, then one or more digits, at most
/// `u32::MAX`.
pub open spec fn parse_u32_spec(t: Seq<char>) -> Option<u32> {
    let d = if t.len() > 0 && t[0] == '+' {
        t.drop_first()
    } else {
        t
    };
    if d.len() > 0 && all_digits(d) && digits_value(d) <= u32::MAX {
        Some(digits_value(d) as u32)
    } else {
        None
    }
}

proof fn lemma_digits_mono(t: Seq<char>, k: int)
    requires
        0 <= k <= t.len(),
        all_digits(t),
    ensures
        digits_value(t.take(k)) <= digits_value(t),
    decreases t.len(),
{
    if k < t.len() {
        assert(all_digits(t.drop_last()));
        assert(t.drop_last().take(k) =~= t.take(k));
        lemma_digits_mono(t.drop_last(), k);
    } else {
        assert(t.take(k) =~= t);
    }
}

/// Parses a decimal `u32` as `str::parse` does.
pub fn parse_u32(t: &Vec<char>) -> (r: Option<u32>)
    ensures
        r == parse_u32_spec(t@),
{
    let start: usize = if t.len() > 0 && t[0] == '+' {
        1
    } else {
        0
    };
    let ghost d = if t@.len() > 0 && t@[0] == '+' {
        t@.drop_first()
    } else {
        t@
    };
    assert(d =~= t@.subrange(start as int, t@.len() as int));
    if start >= t.len() {
        return None;
    }
    let mut v: u64 = 0;
    let mut i = start;
    while i < t.len()
        invariant
            start <= i <= t@.len(),
            d =~= t@.subrange(start as int, t@.len() as int),
            d == (if t@.len() > 0 && t@[0] == '+' {
                t@.drop_first()
            } else {
                t@
            }),
            d.len() > 0,
            all_digits(d.take(i - start)),
            v == digits_value(d.take(i - start)),
            v <= u32::MAX,
        decreases t@.len() - i,
    {
        let c = t[i];
        assert(d[i - start] == c);
        if !('0' <= c && c <= '9') {
            assert(!all_digits(d));
            return None;
        }
        let digit = (c as u32 - '0' as u32) as u64;
        assert(d.take(i - start + 1).drop_last() =~= d.take(i - start));
        assert(all_digits(d.take(i - start + 1)));
        let nv = v * 10 + digit;
        if nv > u32::MAX as u64 {
            proof {
                let j = i - start + 1;
                if all_digits(d) {
                    lemma_digits_mono(d, j);
                }
            }
            return None;
        }
        v = nv;
        i = i + 1;
    }
    assert(d.take(i - start) =~= d);
    Some(v as u32)
}

/// The pieces of `s` between ASCII white-space characters (empty pieces
/// included), in order.
pub open spec fn ws_split(s: Seq<char>) -> Seq<Seq<char>>
    decreases s.len(),
{
    if s.len() == 0 {
        seq![Seq::empty()]
    } else {
        let t = ws_split(s.drop_last());
        if ascii_ws(s.last()) {
            t.push(Seq::empty())
        } else {
            t.update(t.len() - 1, t.last().push(s.last()))
        }
    }
}

proof fn lemma_ws_split_nonempty(s: Seq<char>)
    ensures
        ws_split(s).len() >= 1,
    decreases s.len(),
{
    if s.len() > 0 {
        lemma_ws_split_nonempty(s.drop_last());
    }
}

/// The first piece that parses as a `u32`, 0 when none does.
pub open spec fn first_u32(pieces: Seq<Seq<char>>) -> u32
    decreases pieces.len(),
{
    if pieces.len() == 0 {
        0
    } else {
        match parse_u32_spec(pieces[0]) {
            Some(v) => v,
            None => first_u32(pieces.drop_first()),
        }
    }
}

/// Pieces already closed by a white-space character stay pieces of any
/// longer text.
proof fn lemma_ws_split_extend(s: Seq<char>, j: int)
    requires
        0 <= j <= s.len(),
    ensures
        ws_split(s).len() >= ws_split(s.take(j)).len(),
        forall|k: int|
            0 <= k < ws_split(s.take(j)).len() - 1 ==> #[trigger] ws_split(s)[k] == ws_split(
                s.take(j),
            )[k],
    decreases s.len(),
{
    if j == s.len() {
        assert(s.take(j) =~= s);
    } else {
        lemma_ws_split_extend(s.drop_last(), j);
        assert(s.drop_last().take(j) =~= s.take(j));
        lemma_ws_split_nonempty(s.drop_last());
    }
}

/// Leading pieces that do not parse are skipped.
proof fn lemma_first_u32_skip(p: Seq<Seq<char>>, n: int)
    requires
        0 <= n <= p.len(),
        forall|k: int| 0 <= k < n ==> parse_u32_spec(#[trigger] p[k]) is None,
    ensures
        first_u32(p) == first_u32(p.subrange(n, p.len() as int)),
    decreases n,
{
    if n == 0 {
        assert(p.subrange(0, p.len() as int) =~= p);
    } else {
        assert(parse_u32_spec(p[0]) is None);
        let q = p.drop_first();
        assert forall|k: int| 0 <= k < n - 1 implies parse_u32_spec(#[trigger] q[k]) is None by {
            assert(q[k] == p[k + 1]);
        }
        lemma_first_u32_skip(q, n - 1);
        assert(q.subrange(n - 1, q.len() as int) =~= p.subrange(n, p.len() as int));
    }
}

/// The process id in `lsof -t` output: the first white-space separated
/// piece that parses as a `u32`, 0 when none does.
pub fn pid_from_lsof_output(out: &str) -> (pid: u32)
    ensures
        pid == first_u32(ws_split(out@)),
{
    let s = str_chars(out);
    let mut cur: Vec<char> = Vec::new();
    let ghost mut done: Seq<Seq<char>> = Seq::empty();
    let mut i: usize = 0;
    assert(s@.take(0) =~= Seq::<char>::empty());
    assert(ws_split(s@.take(0)) =~= done.push(cur@));
    while i < s.len()
        invariant
            i <= s@.len(),
            s@ == out@,
            ws_split(s@.take(i as int)) == done.push(cur@),
            forall|k: int| 0 <= k < done.len() ==> parse_u32_spec(#[trigger] done[k]) is None,
        decreases s@.len() - i,
    {
        let c = s[i];
        assert(s@.take(i + 1).drop_last() =~= s@.take(i as int));
        assert(s@.take(i + 1).last() == c);
        if c == ' ' || c == '\t' || c == '\n' || c == '\x0C' || c == '\r' {
            let parsed = parse_u32(&cur);
            assert(ws_split(s@.take(i + 1)) =~= done.push(cur@).push(Seq::empty()));
            match parsed {
                Some(v) => {
                    proof {
                        let p = ws_split(s@);
                        let n = done.len() as int;
                        lemma_ws_split_extend(s@, i + 1);
                        assert(p[n] == cur@);
                        assert forall|k: int| 0 <= k < n implies parse_u32_spec(
                            #[trigger] p[k],
                        ) is None by {
                            assert(p[k] == done[k]);
                        }
                        lemma_first_u32_skip(p, n);
                        assert(p.subrange(n, p.len() as int)[0] == cur@);
                    }
                    return v;
                },
                None => {},
            }
            proof {
                done = done.push(cur@);
            }
            cur = Vec::new();
            assert(ws_split(s@.take(i + 1)) =~= done.push(cur@));
        } else {
            cur.push(c);
            assert(ws_split(s@.take(i + 1)) =~= done.push(cur@));
        }
        i = i + 1;
    }
    assert(s@.take(i as int) =~= s@);
    let parsed = parse_u32(&cur);
    proof {
        let p = ws_split(s@);
        let n = done.len() as int;
        assert(p == done.push(cur@));
        assert forall|k: int| 0 <= k < n implies parse_u32_spec(#[trigger] p[k]) is None by {
            assert(p[k] == done[k]);
        }
        lemma_first_u32_skip(p, n);
        let rest = p.subrange(n, p.len() as int);
        assert(rest =~= seq![cur@]);
        assert(rest.drop_first() =~= Seq::<Seq<char>>::empty());
        assert(rest[0] == cur@);
        assert(first_u32(rest) == match parse_u32_spec(cur@) {
            Some(v) => v,
            None => first_u32(Seq::<Seq<char>>::empty()),
        });
    }
    match parsed {
        Some(v) => v,
        None => 0,
    }
}

/// The process should be stopped: an astral-core process that is not of
/// the current generation (or runs the earlier layout).
pub fn should_kill_listener(l: &ListenerInfo) -> (b: bool)
    ensures
        b == (l.is_astral_core && !(l.generation_match && !l.is_legacy)),
{
    l.is_astral_core && !(l.generation_match && !l.is_legacy)
}

/// Legacy data is migrated when the earlier directory exists and the root
/// has no node id yet (or migration is forced).
pub fn migrate_legacy_data_if_needed(legacy_exists: bool, node_id_exists: bool, force: bool) -> (b:
    bool)
    ensures
        b == (legacy_exists && (!node_id_exists || force)),
{
    legacy_exists && (!node_id_exists || force)
}

/// The earlier data directory may be deleted when it exists and its node
/// id is not the only one (the root has one, or it has none).
pub fn remove_legacy_data_dir_if_safe(
    legacy_exists: bool,
    root_node_id_exists: bool,
    legacy_node_id_exists: bool,
) -> (b: bool)
    ensures
        b == (legacy_exists && !(!root_node_id_exists && legacy_node_id_exists)),
        b ==> !(legacy_node_id_exists && !root_node_id_exists),
{
    legacy_exists && !(!root_node_id_exists && legacy_node_id_exists)
}

} // verus!
