//! In-process log ring: the most recent lines, each numbered by a
//! monotonic sequence number that clients poll after.
use vstd::prelude::*;

use std::collections::VecDeque;

use crate::text::{str_chars, str_eq, string_from_chars};

verus! {

/// Capacity of the ring.
pub const RING_CAP: usize = 2000;

/// One log line.
#[derive(Debug, Clone)]
pub struct LogLine {
    /// Monotonic sequence number (clients deduplicate by it).
    pub seq: u64,
    /// Unix seconds.
    pub unix_secs: i64,
    /// Level.
    pub level: String,
    /// Target.
    pub target: String,
    /// Message text.
    pub message: String,
    /// Related instance (may be empty).
    pub instance_id: String,
}

impl LogLine {
    /// A field-by-field copy.
    pub fn copy(&self) -> (r: LogLine)
        ensures
            r == *self,
    {
        LogLine {
            seq: self.seq,
            unix_secs: self.unix_secs,
            level: self.level.clone(),
            target: self.target.clone(),
            message: self.message.clone(),
            instance_id: self.instance_id.clone(),
        }
    }
}

/// The ring after appending `line` numbered `seq`.
pub open spec fn ring_push(before: Seq<LogLine>, line: LogLine, seq: u64) -> Seq<LogLine> {
    let kept = if before.len() >= RING_CAP {
        before.drop_first()
    } else {
        before
    };
    kept.push(LogLine { seq, ..line })
}

/// Lines strictly increasing by sequence number, none above `top`.
pub open spec fn ordered(s: Seq<LogLine>, top: u64) -> bool {
    &&& forall|i: int, j: int| 0 <= i < j < s.len() ==> (#[trigger] s[i]).seq < (#[trigger] s[j]).seq
    &&& forall|i: int| 0 <= i < s.len() ==> (#[trigger] s[i]).seq <= top
}

/// The lines of `s` numbered after `after`, in order.
pub open spec fn lines_after(s: Seq<LogLine>, after: u64) -> Seq<LogLine>
    decreases s.len(),
{
    if s.len() == 0 {
        s
    } else if s.last().seq > after {
        lines_after(s.drop_last(), after).push(s.last())
    } else {
        lines_after(s.drop_last(), after)
    }
}

/// The lines of instance `id` in `s` numbered after `after`, in order.
pub open spec fn instance_lines_after(s: Seq<LogLine>, after: u64, id: Seq<char>) -> Seq<
    LogLine,
>
    decreases s.len(),
{
    if s.len() == 0 {
        s
    } else if s.last().seq > after && s.last().instance_id@ == id {
        instance_lines_after(s.drop_last(), after, id).push(s.last())
    } else {
        instance_lines_after(s.drop_last(), after, id)
    }
}

/// `limit` clamped to `1..=2000`.
pub open spec fn clamp_limit(limit: usize) -> int {
    if limit < 1 {
        1
    } else if limit > 2000 {
        2000
    } else {
        limit as int
    }
}

/// The last `n` items of `s` (all of it when shorter).
pub open spec fn last_n<T>(s: Seq<T>, n: int) -> Seq<T> {
    if s.len() <= n {
        s
    } else {
        s.subrange(s.len() - n, s.len() as int)
    }
}

/// The first `n` items of `s` (all of it when shorter).
pub open spec fn first_n<T>(s: Seq<T>, n: int) -> Seq<T> {
    if s.len() <= n {
        s
    } else {
        s.take(n)
    }
}

/// What `recent_since(after, limit)` returns for the ring `s`.
pub open spec fn recent_spec(s: Seq<LogLine>, after: u64, limit: usize) -> Seq<LogLine> {
    if after == 0 {
        last_n(s, clamp_limit(limit))
    } else {
        first_n(lines_after(s, after), clamp_limit(limit))
    }
}

/// Process log hub: the ring of recent lines and the last number given.
#[derive(Debug)]
pub struct LogHub {
    recent: VecDeque<LogLine>,
    seq: u64,
}

/// A prefix of the lines after `after` is the lines after `after` of a
/// prefix.
proof fn lemma_lines_after_prefix(s: Seq<LogLine>, after: u64, i: int)
    requires
        0 <= i <= s.len(),
    ensures
        lines_after(s.take(i), after).len() <= lines_after(s, after).len(),
        lines_after(s.take(i), after) == lines_after(s, after).take(
            lines_after(s.take(i), after).len() as int,
        ),
    decreases s.len() - i,
{
    if i < s.len() {
        lemma_lines_after_prefix(s, after, i + 1);
        assert(s.take(i + 1).drop_last() =~= s.take(i));
        let a = lines_after(s.take(i), after);
        let b = lines_after(s.take(i + 1), after);
        let c = lines_after(s, after);
        assert(a == b.take(a.len() as int)) by {
            if s.take(i + 1).last().seq > after {
                assert(b == a.push(s.take(i + 1).last()));
                assert(a =~= b.take(a.len() as int));
            }
        }
        assert(a =~= c.take(a.len() as int));
    } else {
        assert(s.take(i) =~= s);
    }
}

/// Same as above, restricted to one instance.
proof fn lemma_instance_lines_prefix(s: Seq<LogLine>, after: u64, id: Seq<char>, i: int)
    requires
        0 <= i <= s.len(),
    ensures
        instance_lines_after(s.take(i), after, id).len() <= instance_lines_after(
            s,
            after,
            id,
        ).len(),
        instance_lines_after(s.take(i), after, id) == instance_lines_after(s, after, id).take(
            instance_lines_after(s.take(i), after, id).len() as int,
        ),
    decreases s.len() - i,
{
    if i < s.len() {
        lemma_instance_lines_prefix(s, after, id, i + 1);
        assert(s.take(i + 1).drop_last() =~= s.take(i));
        let a = instance_lines_after(s.take(i), after, id);
        let b = instance_lines_after(s.take(i + 1), after, id);
        let c = instance_lines_after(s, after, id);
        assert(a == b.take(a.len() as int)) by {
            let l = s.take(i + 1).last();
            if l.seq > after && l.instance_id@ == id {
                assert(b == a.push(l));
                assert(a =~= b.take(a.len() as int));
            }
        }
        assert(a =~= c.take(a.len() as int));
    } else {
        assert(s.take(i) =~= s);
    }
}

impl LogHub {
    /// An empty hub.
    pub fn new() -> (h: LogHub)
        ensures
            h.lines().len() == 0,
            h.last_seq() == 0,
    {
        LogHub { recent: VecDeque::new(), seq: 0 }
    }

    /// The lines in the ring, oldest first.
    pub closed spec fn lines(&self) -> Seq<LogLine> {
        self.recent@
    }

    /// The last sequence number given out.
    pub closed spec fn last_seq(&self) -> u64 {
        self.seq
    }

    /// The last sequence number given out (0 before the first line).
    pub fn last_number(&self) -> (n: u64)
        ensures
            n == self.last_seq(),
    {
        self.seq
    }

    /// Appends `line`, numbering it with the next sequence number and
    /// dropping the oldest line when the ring is full.
    pub fn push(&mut self, line: LogLine)
        requires
            old(self).last_seq() < u64::MAX,
        ensures
            final(self).last_seq() == old(self).last_seq() + 1,
            final(self).lines() == ring_push(old(self).lines(), line, final(self).last_seq()),
    {
        self.seq = self.seq + 1;
        let numbered = LogLine { seq: self.seq, ..line };
        if self.recent.len() >= RING_CAP {
            self.recent.pop_front();
        }
        self.recent.push_back(numbered);
    }

    /// Lines numbered after `after`, at most `limit` (clamped to 1..=2000)
    /// of them; with `after == 0`, the most recent `limit` lines.
    pub fn recent_since(&self, after: u64, limit: usize) -> (v: Vec<LogLine>)
        ensures
            v@ == recent_spec(self.lines(), after, limit),
    {
        let lim: usize = if limit < 1 {
            1
        } else if limit > 2000 {
            2000
        } else {
            limit
        };
        let n = self.recent.len();
        let mut v: Vec<LogLine> = Vec::new();
        if after == 0 {
            let start: usize = if n <= lim {
                0
            } else {
                n - lim
            };
            let mut i = start;
            while i < n
                invariant
                    start <= i <= n,
                    n == self.recent@.len(),
                    v@ == self.recent@.subrange(start as int, i as int),
                decreases n - i,
            {
                v.push(self.recent[i].copy());
                assert(v@ =~= self.recent@.subrange(start as int, i + 1));
                i = i + 1;
            }
            if n <= lim {
                assert(self.recent@.subrange(0, n as int) =~= self.recent@);
            }
            return v;
        }
        let mut i: usize = 0;
        assert(self.recent@.take(n as int) =~= self.recent@);
        while i < n
            invariant_except_break
                v@ == lines_after(self.recent@.take(i as int), after),
                v@.len() < lim,
            invariant
                i <= n,
                n == self.recent@.len(),
                self.recent@.take(n as int) == self.recent@,
                1 <= lim <= 2000,
                lim == clamp_limit(limit),
            ensures
                v@ == first_n(lines_after(self.recent@, after), lim as int),
            decreases n - i,
        {
            assert(self.recent@.take(i + 1).drop_last() =~= self.recent@.take(i as int));
            if self.recent[i].seq > after {
                v.push(self.recent[i].copy());
                if v.len() == lim {
                    proof {
                        lemma_lines_after_prefix(self.recent@, after, i + 1);
                        let c = lines_after(self.recent@, after);
                        if c.len() == v@.len() {
                            assert(c.take(c.len() as int) =~= c);
                        }
                    }
                    break;
                }
            }
            i = i + 1;
        }
        proof {
            if i == n {
                assert(self.recent@.take(n as int) =~= self.recent@);
            }
        }
        v
    }

    /// Lines of instance `instance_id` numbered after `after`, at most
    /// `limit` (clamped to 1..=2000); with `after == 0`, the most recent
    /// `limit` lines of that instance.
    pub fn recent_since_for_instance(&self, after: u64, limit: usize, instance_id: &str) -> (v:
        Vec<LogLine>)
        ensures
            v@ == (if after == 0 {
                last_n(instance_lines_after(self.lines(), 0, instance_id@), clamp_limit(limit))
            } else {
                first_n(instance_lines_after(self.lines(), after, instance_id@), clamp_limit(limit))
            }),
    {
        let lim: usize = if limit < 1 {
            1
        } else if limit > 2000 {
            2000
        } else {
            limit
        };
        let n = self.recent.len();
        let mut v: Vec<LogLine> = Vec::new();
        let mut i: usize = 0;
        if after == 0 {
            while i < n
                invariant
                    i <= n,
                    n == self.recent@.len(),
                    v@ == instance_lines_after(self.recent@.take(i as int), 0, instance_id@),
                decreases n - i,
            {
                assert(self.recent@.take(i + 1).drop_last() =~= self.recent@.take(i as int));
                if self.recent[i].seq > 0 && str_eq(self.recent[i].instance_id.as_str(), instance_id) {
                    v.push(self.recent[i].copy());
                }
                i = i + 1;
            }
            assert(self.recent@.take(n as int) =~= self.recent@);
            let m = v.len();
            let start: usize = if m <= lim {
                0
            } else {
                m - lim
            };
            let mut out: Vec<LogLine> = Vec::new();
            let mut k = start;
            while k < m
                invariant
                    start <= k <= m,
                    m == v@.len(),
                    out@ == v@.subrange(start as int, k as int),
                decreases m - k,
            {
                out.push(v[k].copy());
                assert(out@ =~= v@.subrange(start as int, k + 1));
                k = k + 1;
            }
            if m <= lim {
                assert(v@.subrange(0, m as int) =~= v@);
            }
            return out;
        }
        assert(self.recent@.take(n as int) =~= self.recent@);
        while i < n
            invariant_except_break
                v@ == instance_lines_after(self.recent@.take(i as int), after, instance_id@),
                v@.len() < lim,
            invariant
                i <= n,
                n == self.recent@.len(),
                self.recent@.take(n as int) == self.recent@,
                1 <= lim <= 2000,
                lim == clamp_limit(limit),
            ensures
                v@ == first_n(instance_lines_after(self.recent@, after, instance_id@), lim as int),
            decreases n - i,
        {
            assert(self.recent@.take(i + 1).drop_last() =~= self.recent@.take(i as int));
            if self.recent[i].seq > after && str_eq(self.recent[i].instance_id.as_str(), instance_id) {
                v.push(self.recent[i].copy());
                if v.len() == lim {
                    proof {
                        lemma_instance_lines_prefix(self.recent@, after, instance_id@, i + 1);
                        let c = instance_lines_after(self.recent@, after, instance_id@);
                        if c.len() == v@.len() {
                            assert(c.take(c.len() as int) =~= c);
                        }
                    }
                    break;
                }
            }
            i = i + 1;
        }
        proof {
            if i == n {
                assert(self.recent@.take(n as int) =~= self.recent@);
            }
        }
        v
    }
}

/// The ring never holds more than its capacity.
pub proof fn ring_stays_bounded(before: Seq<LogLine>, line: LogLine, seq: u64)
    requires
        before.len() <= RING_CAP,
    ensures
        ring_push(before, line, seq).len() <= RING_CAP,
        ring_push(before, line, seq).last().seq == seq,
{
}

/// Numbering keeps the ring strictly increasing: appending with the next
/// number after `top` keeps the lines ordered, none above the new number.
pub proof fn numbering_keeps_order(before: Seq<LogLine>, line: LogLine, top: u64)
    requires
        ordered(before, top),
        top < u64::MAX,
    ensures
        ordered(ring_push(before, line, (top + 1) as u64), (top + 1) as u64),
{
    let after = ring_push(before, line, (top + 1) as u64);
    let kept = if before.len() >= RING_CAP {
        before.drop_first()
    } else {
        before
    };
    assert forall|i: int, j: int| 0 <= i < j < after.len() implies (#[trigger] after[i]).seq
        < (#[trigger] after[j]).seq by {
        if j < after.len() - 1 {
            if before.len() >= RING_CAP {
                assert(after[i] == before[i + 1]);
                assert(after[j] == before[j + 1]);
            } else {
                assert(after[i] == before[i]);
                assert(after[j] == before[j]);
            }
        } else {
            if before.len() >= RING_CAP {
                assert(after[i] == before[i + 1]);
            } else {
                assert(after[i] == before[i]);
            }
        }
    }
    assert forall|i: int| 0 <= i < after.len() implies (#[trigger] after[i]).seq <= top + 1 by {
        if i < after.len() - 1 {
            if before.len() >= RING_CAP {
                assert(after[i] == before[i + 1]);
            } else {
                assert(after[i] == before[i]);
            }
        }
    }
}

/// Every line returned after a nonzero `after` is numbered after it.
pub proof fn polled_lines_are_newer(s: Seq<LogLine>, after: u64, k: int)
    requires
        0 <= k < lines_after(s, after).len(),
    ensures
        lines_after(s, after)[k].seq > after,
    decreases s.len(),
{
    if s.len() > 0 {
        let t = s.drop_last();
        if s.last().seq > after {
            if k < lines_after(t, after).len() {
                polled_lines_are_newer(t, after, k);
            }
        } else {
            polled_lines_are_newer(t, after, k);
        }
    }
}

/// The ring of a new hub after `ls` were pushed, in order, each numbered
/// by its position (from 1).
pub open spec fn ring_after(ls: Seq<LogLine>) -> Seq<LogLine>
    decreases ls.len(),
{
    if ls.len() == 0 {
        Seq::empty()
    } else {
        ring_push(ring_after(ls.drop_last()), ls.last(), ls.len() as u64)
    }
}

/// Pushes number lines 1, 2, 3, ... with no gap or repeat, and the ring
/// keeps the latest lines, at most its capacity, dropping the oldest
/// first: after any run of pushes on a new hub, the ring holds the last
/// `min(n, 2000)` of the `n` lines pushed, in order, each numbered by its
/// position in the run.
pub proof fn pushes_number_without_gaps(ls: Seq<LogLine>)
    requires
        ls.len() < u64::MAX,
    ensures
        ring_after(ls).len() == if ls.len() < RING_CAP {
            ls.len() as int
        } else {
            RING_CAP as int
        },
        forall|i: int|
            0 <= i < ring_after(ls).len() ==> #[trigger] ring_after(ls)[i] == (LogLine {
                seq: (ls.len() - ring_after(ls).len() + 1 + i) as u64,
                ..ls[ls.len() - ring_after(ls).len() + i]
            }),
    decreases ls.len(),
{
    if ls.len() > 0 {
        let t = ls.drop_last();
        pushes_number_without_gaps(t);
        let before = ring_after(t);
        let after = ring_after(ls);
        let n = ls.len() as int;
        let m = before.len() as int;
        assert forall|i: int| 0 <= i < after.len() implies #[trigger] after[i] == (LogLine {
            seq: (n - after.len() + 1 + i) as u64,
            ..ls[n - after.len() + i]
        }) by {
            if i == after.len() - 1 {
                assert(ls[n - 1] == ls.last());
            } else if m >= RING_CAP {
                assert(after[i] == before[i + 1]);
                assert(t[n - 1 - m + i + 1] == ls[n - 1 - m + i + 1]);
            } else {
                assert(after[i] == before[i]);
                assert(t[n - 1 - m + i] == ls[n - 1 - m + i]);
            }
        }
    }
}

/// One more push continues the run: a hub whose ring is that of a run
/// `ls` (and whose last number is its length), after `push(line)`, holds
/// the ring of the run `ls` followed by `line`.
pub proof fn push_continues_run(ls: Seq<LogLine>, line: LogLine)
    ensures
        ring_after(ls.push(line)) == ring_push(ring_after(ls), line, (ls.len() + 1) as u64),
{
    assert(ls.push(line).drop_last() =~= ls);
}

/// The message and instance id picked out of a log event's fields.
#[derive(Debug, Default)]
pub struct FieldCollector {
    /// The `message` field.
    pub message: String,
    /// The `instance_id` field.
    pub instance_id: String,
}

impl FieldCollector {
    /// Records field `name`: `message` and `instance_id` are kept, any other
    /// field is ignored.
    pub fn put(&mut self, name: &str, value: String)
        ensures
            name@ == "message"@ ==> final(self).message == value && final(self).instance_id
                == old(self).instance_id,
            name@ == "instance_id"@ ==> final(self).instance_id == value && final(self).message
                == old(self).message,
            name@ != "message"@ && name@ != "instance_id"@ ==> final(self).message == old(
                self,
            ).message && final(self).instance_id == old(self).instance_id,
    {
        proof {
            reveal_strlit("message");
            reveal_strlit("instance_id");
            assert("message"@.len() != "instance_id"@.len());
        }
        if str_eq(name, "message") {
            self.message = value;
        } else if str_eq(name, "instance_id") {
            self.instance_id = value;
        }
    }
}

/// Default `limit` of a `logs.recent` call.
pub fn default_log_limit() -> (n: u32)
    ensures
        n == 200,
{
    200
}

/// The limit a `logs.recent` call uses: 200 for 0, else at most 2000.
pub fn logs_recent_limit(limit: u32) -> (n: usize)
    ensures
        n == (if limit == 0 {
            200
        } else if limit > 2000 {
            2000
        } else {
            limit as int
        }),
{
    if limit == 0 {
        200
    } else if limit > 2000 {
        2000
    } else {
        limit as usize
    }
}

/// The sequence number a poll reports: that of the last line returned, or
/// `after` when none was.
pub fn last_seq_of(lines: &Vec<LogLine>, after: u64) -> (n: u64)
    ensures
        n == (if lines@.len() == 0 {
            after
        } else {
            lines@.last().seq
        }),
{
    if lines.len() == 0 {
        after
    } else {
        lines[lines.len() - 1].seq
    }
}

/// `s` without its leading `"` characters.
pub open spec fn trim_quotes_start(s: Seq<char>) -> Seq<char>
    decreases s.len(),
{
    if s.len() > 0 && s[0] == '"' {
        trim_quotes_start(s.drop_first())
    } else {
        s
    }
}

/// `s` without its trailing `"` characters.
pub open spec fn trim_quotes_end(s: Seq<char>) -> Seq<char>
    decreases s.len(),
{
    if s.len() > 0 && s.last() == '"' {
        trim_quotes_end(s.drop_last())
    } else {
        s
    }
}

/// `str::trim_matches('"')`.
pub open spec fn trim_quotes(s: Seq<char>) -> Seq<char> {
    trim_quotes_end(trim_quotes_start(s))
}

/// A field value written with `Debug`, without the quotes around it.
pub fn strip_quotes(value: &str) -> (r: String)
    ensures
        r@ == trim_quotes(value@),
{
    let v = str_chars(value);
    let mut lo: usize = 0;
    assert(v@.subrange(0, v@.len() as int) =~= v@);
    while lo < v.len() && v[lo] == '"'
        invariant
            lo <= v@.len(),
            trim_quotes_start(v@) == trim_quotes_start(v@.subrange(lo as int, v@.len() as int)),
        decreases v@.len() - lo,
    {
        assert(v@.subrange(lo as int, v@.len() as int).drop_first() =~= v@.subrange(
            lo + 1,
            v@.len() as int,
        ));
        lo = lo + 1;
    }
    let mut hi: usize = v.len();
    while hi > lo && v[hi - 1] == '"'
        invariant
            lo <= hi <= v@.len(),
            trim_quotes_end(v@.subrange(lo as int, v@.len() as int)) == trim_quotes_end(
                v@.subrange(lo as int, hi as int),
            ),
        decreases hi,
    {
        assert(v@.subrange(lo as int, hi as int).drop_last() =~= v@.subrange(
            lo as int,
            hi - 1,
        ));
        hi = hi - 1;
    }
    let mut r: Vec<char> = Vec::new();
    let mut k = lo;
    while k < hi
        invariant
            lo <= k <= hi <= v@.len(),
            r@ == v@.subrange(lo as int, k as int),
        decreases hi - k,
    {
        r.push(v[k]);
        assert(r@ =~= v@.subrange(lo as int, k + 1));
        k = k + 1;
    }
    string_from_chars(r.as_slice())
}

/// Level of a log event.
#[derive(Debug, Clone, Copy, PartialEq, Eq, Structural)]
pub enum LogLevel {
    /// Trace.
    Trace,
    /// Debug.
    Debug,
    /// Info.
    Info,
    /// Warn.
    Warn,
    /// Error.
    Error,
}

/// The lower-case name of a level, as lines record it.
pub open spec fn level_text(l: LogLevel) -> Seq<char> {
    match l {
        LogLevel::Trace => "trace"@,
        LogLevel::Debug => "debug"@,
        LogLevel::Info => "info"@,
        LogLevel::Warn => "warn"@,
        LogLevel::Error => "error"@,
    }
}

/// The line captured for an event: not yet numbered, the level in lower
/// case, the target, and the message and instance id its fields gave.
pub fn captured_line(level: LogLevel, target: &str, fields: FieldCollector, now: i64) -> (l: LogLine)
    ensures
        l.seq == 0,
        l.unix_secs == now,
        l.level@ == level_text(level),
        l.target@ == target@,
        l.message == fields.message,
        l.instance_id == fields.instance_id,
{
    let level_name = match level {
        LogLevel::Trace => "trace",
        LogLevel::Debug => "debug",
        LogLevel::Info => "info",
        LogLevel::Warn => "warn",
        LogLevel::Error => "error",
    };
    LogLine {
        seq: 0,
        unix_secs: now,
        level: level_name.to_string(),
        target: target.to_string(),
        message: fields.message,
        instance_id: fields.instance_id,
    }
}

} // verus!
