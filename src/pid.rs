//! Recovering the backend's process id from its log: the decimal number in the
//! first line that matches a pattern, and the decision to poll again or stop.
use vstd::prelude::*;
use vstd::string::StrSliceExecFns;
use crate::pattern::{regex_group, LinePattern};

verus! {

/// The pattern of a log line that announces the backend's process id; its
/// first group holds the digits.
pub const PID_PATTERN: &'static str = "pid:\\s*(\\d+)";

/// The read limit the host gives the log search.
pub const MAX_RETRIES: u32 = 100;

/// The delay between two reads of the log, in milliseconds.
pub const POLL_DELAY_MS: u64 = 500;

/// One past the largest `u32`.
const U32_LIMIT: u64 = 0x1_0000_0000;

pub open spec fn is_ascii_digit(c: char) -> bool {
    '0' <= c && c <= '9'
}

/// The value of a string of ASCII digits.
pub open spec fn digits_value(s: Seq<char>) -> nat
    decreases s.len(),
{
    if s.len() == 0 {
        0
    } else {
        digits_value(s.drop_last()) * 10 + ((s.last() as u32) - 48) as nat
    }
}

pub open spec fn all_ascii_digits(s: Seq<char>) -> bool {
    forall|i: int| 0 <= i < s.len() ==> is_ascii_digit(#[trigger] s[i])
}

/// The digits after an optional leading `+`.
pub open spec fn unsigned_body(s: Seq<char>) -> Seq<char> {
    if s.len() > 0 && s[0] == '+' {
        s.subrange(1, s.len() as int)
    } else {
        s
    }
}

/// What `str::parse::<u32>` accepts: an optional `+`, then at least one ASCII
/// digit, with a value that fits in a `u32`.
pub open spec fn parsed_u32(s: Seq<char>) -> Option<u32> {
    let body = unsigned_body(s);
    if body.len() > 0 && all_ascii_digits(body) && digits_value(body) <= u32::MAX {
        Some(digits_value(body) as u32)
    } else {
        None
    }
}

/// The process id a log line announces under `pattern`: its first group, read
/// as a `u32`.
pub open spec fn line_pid(pattern: Seq<char>, line: Seq<char>) -> Option<u32> {
    match regex_group(pattern, line, 1) {
        Some(d) => parsed_u32(d),
        None => None,
    }
}

/// The process id announced by the first line that announces one.
pub open spec fn first_pid(pattern: Seq<char>, lines: Seq<Seq<char>>) -> Option<u32>
    decreases lines.len(),
{
    if lines.len() == 0 {
        None
    } else {
        match first_pid(pattern, lines.drop_last()) {
            Some(p) => Some(p),
            None => line_pid(pattern, lines.last()),
        }
    }
}

pub open spec fn lines_view(lines: Seq<String>) -> Seq<Seq<char>> {
    lines.map_values(|l: String| l@)
}

/// Reads a decimal `u32` as `str::parse::<u32>` does.
pub fn parse_pid(digits: &str) -> (r: Option<u32>)
    ensures
        r == parsed_u32(digits@),
{
    let ghost s = digits@;
    let n = digits.unicode_len();
    let mut i: usize = 0;
    if n > 0 && digits.get_char(0) == '+' {
        i = 1;
    }
    let start = i;
    let ghost body = unsigned_body(s);
    assert(body =~= s.subrange(start as int, n as int));
    if start == n {
        return None;
    }
    let mut v: u64 = 0;
    while i < n
        invariant
            start <= i <= n,
            n == s.len(),
            s == digits@,
            start < n,
            body =~= s.subrange(start as int, n as int),
            body == unsigned_body(s),
            forall|j: int| start <= j < i ==> is_ascii_digit(#[trigger] s[j]),
            v == (if digits_value(s.subrange(start as int, i as int)) < U32_LIMIT {
                digits_value(s.subrange(start as int, i as int))
            } else {
                U32_LIMIT as nat
            }),
        decreases n - i,
    {
        let c = digits.get_char(i);
        if !('0' <= c && c <= '9') {
            assert(body[i - start] == c);
            assert(!is_ascii_digit(body[i - start]));
            return None;
        }
        let d = (c as u32 - 48) as u64;
        assert(s.subrange(start as int, i + 1).drop_last() =~= s.subrange(start as int, i as int));
        let w = v * 10 + d;
        v = if w > U32_LIMIT {
            U32_LIMIT
        } else {
            w
        };
        i = i + 1;
    }
    assert(s.subrange(start as int, n as int) =~= body);
    assert forall|j: int| 0 <= j < body.len() implies is_ascii_digit(#[trigger] body[j]) by {
        assert(body[j] == s[start + j]);
    }
    if v > u32::MAX as u64 {
        None
    } else {
        Some(v as u32)
    }
}

/// The process id that `line` announces under `pattern`, if any.
pub fn pid_in_line(pattern: &LinePattern, line: &str) -> (r: Option<u32>)
    ensures
        r == line_pid(pattern.source(), line@),
{
    match pattern.group_in(line, 1) {
        Some(d) => parse_pid(d.as_str()),
        None => None,
    }
}

proof fn lemma_first_pid_kept(pattern: Seq<char>, lines: Seq<Seq<char>>, k: int)
    requires
        0 <= k <= lines.len(),
        first_pid(pattern, lines.subrange(0, k)) is Some,
    ensures
        first_pid(pattern, lines) == first_pid(pattern, lines.subrange(0, k)),
    decreases lines.len(),
{
    if k < lines.len() {
        assert(lines.drop_last().subrange(0, k) =~= lines.subrange(0, k));
        lemma_first_pid_kept(pattern, lines.drop_last(), k);
    } else {
        assert(lines.subrange(0, k) =~= lines);
    }
}

/// The process id announced by the first of `lines` that announces one.
pub fn scan_for_pid(pattern: &LinePattern, lines: &Vec<String>) -> (r: Option<u32>)
    ensures
        r == first_pid(pattern.source(), lines_view(lines@)),
{
    let ghost all = lines_view(lines@);
    let mut i: usize = 0;
    while i < lines.len()
        invariant
            i <= lines.len(),
            all == lines_view(lines@),
            first_pid(pattern.source(), all.subrange(0, i as int)) is None,
        decreases lines.len() - i,
    {
        let found = pid_in_line(pattern, lines[i].as_str());
        assert(all.subrange(0, i + 1).drop_last() =~= all.subrange(0, i as int));
        if let Some(p) = found {
            proof {
                lemma_first_pid_kept(pattern.source(), all, i + 1);
            }
            return Some(p);
        }
        i = i + 1;
    }
    assert(all.subrange(0, i as int) =~= all);
    None
}

/// The law of the log search: while no line of the log announces a process
/// id, the search finds none; once such a line is written, the search finds
/// the id it announces; and lines written after it do not change the result.
pub proof fn pid_found_exactly_once_written(
    pattern: Seq<char>,
    before: Seq<Seq<char>>,
    line: Seq<char>,
    after: Seq<Seq<char>>,
)
    requires
        forall|i: int| 0 <= i < before.len() ==> (#[trigger] line_pid(pattern, before[i])) is None,
    ensures
        first_pid(pattern, before) is None,
        first_pid(pattern, before.push(line)) == line_pid(pattern, line),
        line_pid(pattern, line) is Some ==> first_pid(pattern, before.push(line) + after)
            == line_pid(pattern, line),
    decreases before.len(),
{
    if before.len() > 0 {
        let shorter = before.drop_last();
        assert forall|i: int| 0 <= i < shorter.len() implies (#[trigger] line_pid(
            pattern,
            shorter[i],
        )) is None by {
            assert(shorter[i] == before[i]);
        }
        pid_found_exactly_once_written(pattern, shorter, before.last(), after);
    }
    assert(before.push(line).drop_last() =~= before);
    if line_pid(pattern, line) is Some {
        let all = before.push(line) + after;
        assert(all.subrange(0, before.len() + 1 as int) =~= before.push(line));
        lemma_first_pid_kept(pattern, all, before.len() + 1 as int);
    }
}

/// What a bounded search of the log does after one read of it.
#[derive(Clone, Copy, PartialEq, Eq, Structural, Debug)]
pub enum PollAction {
    /// The read found this process id: the search ends with it.
    Found(u32),
    /// Nothing found yet: wait, then read again.
    Retry,
    /// Nothing found and no reads are left: the search ends without an id.
    GiveUp,
}

/// A search of the log bounded by a number of reads.
pub struct PidPoll {
    /// Reads that found nothing so far.
    pub reads: u32,
    /// The number of reads after which the search gives up.
    pub max_reads: u32,
}

impl PidPoll {
    /// A search that gives up after `max_reads` reads that found nothing; it
    /// reads the log once even when `max_reads` is `0`.
    pub fn new(max_reads: u32) -> (r: PidPoll)
        ensures
            r.reads == 0,
            r.max_reads == max_reads,
    {
        PidPoll { reads: 0, max_reads }
    }

    /// Decides what follows a read of the log that found `found`.
    pub fn after_read(&mut self, found: Option<u32>) -> (r: PollAction)
        ensures
            final(self).max_reads == old(self).max_reads,
            match found {
                Some(p) => r == PollAction::Found(p) && final(self).reads == old(self).reads,
                None => if old(self).reads + 1 < old(self).max_reads {
                    r == PollAction::Retry && final(self).reads == old(self).reads + 1
                } else {
                    r == PollAction::GiveUp && final(self).reads == old(self).reads
                },
            },
    {
        match found {
            Some(p) => PollAction::Found(p),
            None => {
                if self.reads < self.max_reads && self.max_reads - self.reads > 1 {
                    self.reads = self.reads + 1;
                    PollAction::Retry
                } else {
                    PollAction::GiveUp
                }
            },
        }
    }
}

} // verus!
