//! Relaying the backend's output into the host's log, each line tagged with
//! the stream it came from.
use vstd::prelude::*;
use vstd::string::StringExecFns;

verus! {

/// The child's two output streams.
#[derive(Clone, Copy, PartialEq, Eq, Structural, Debug)]
pub enum StreamKind {
    Stdout,
    Stderr,
}

/// The tag put before each relayed line.
pub open spec fn stream_tag(kind: StreamKind) -> Seq<char> {
    match kind {
        StreamKind::Stdout => "[backend stdout] "@,
        StreamKind::Stderr => "[backend stderr] "@,
    }
}

/// What the log receives for the lines of one stream, in order.
pub open spec fn relayed(kind: StreamKind, lines: Seq<Seq<char>>) -> Seq<Seq<char>> {
    lines.map_values(|l: Seq<char>| stream_tag(kind) + l)
}

/// The log entry for `line`, read from the stream `kind`.
pub fn tag_line(kind: StreamKind, line: &str) -> (r: String)
    ensures
        r@ == stream_tag(kind) + line@,
{
    let tag = match kind {
        StreamKind::Stdout => String::from_str("[backend stdout] "),
        StreamKind::Stderr => String::from_str("[backend stderr] "),
    };
    tag.concat(line)
}

/// What one read of a child stream gave.
pub enum ReadOutcome {
    /// A complete line, without its line ending.
    Line(String),
    /// A line that could not be read, such as one that is not valid UTF-8.
    Unreadable,
    /// The stream has ended.
    Closed,
}

/// What the relay does with one read.
#[derive(Clone, PartialEq, Eq, Debug)]
pub enum RelayAction {
    /// Write this entry to the log.
    Log(String),
    /// Drop the read and read again.
    Skip,
    /// The stream has ended: stop relaying it.
    Stop,
}

/// The log entry a read gives, if any.
pub open spec fn entry_of(kind: StreamKind, outcome: ReadOutcome) -> Option<Seq<char>> {
    match outcome {
        ReadOutcome::Line(l) => Some(stream_tag(kind) + l@),
        _ => None,
    }
}

/// Whether a read ends the relay.
pub open spec fn ends_relay(outcome: ReadOutcome) -> bool {
    outcome is Closed
}

/// The entries the relay writes for a run of reads: one per read that gives
/// one, up to the first read that ends the stream.
pub open spec fn relay_log(kind: StreamKind, reads: Seq<ReadOutcome>) -> Seq<Seq<char>>
    decreases reads.len(),
{
    if reads.len() == 0 || ends_relay(reads[0]) {
        Seq::empty()
    } else {
        match entry_of(kind, reads[0]) {
            Some(e) => seq![e] + relay_log(kind, reads.drop_first()),
            None => relay_log(kind, reads.drop_first()),
        }
    }
}

/// The complete lines in a run of reads, up to the end of the stream.
pub open spec fn lines_read(reads: Seq<ReadOutcome>) -> Seq<Seq<char>>
    decreases reads.len(),
{
    if reads.len() == 0 || ends_relay(reads[0]) {
        Seq::empty()
    } else {
        match reads[0] {
            ReadOutcome::Line(l) => seq![l@] + lines_read(reads.drop_first()),
            _ => lines_read(reads.drop_first()),
        }
    }
}

/// Decides what the relay of stream `kind` does with one read.
pub fn relay_step(kind: StreamKind, outcome: ReadOutcome) -> (r: RelayAction)
    ensures
        ends_relay(outcome) <==> r is Stop,
        match entry_of(kind, outcome) {
            Some(e) => r matches RelayAction::Log(s) && s@ == e,
            None => !(r is Log),
        },
{
    match outcome {
        ReadOutcome::Line(l) => RelayAction::Log(tag_line(kind, l.as_str())),
        ReadOutcome::Unreadable => RelayAction::Skip,
        ReadOutcome::Closed => RelayAction::Stop,
    }
}

/// The law of the relay. Run `relay_step` on each read of a stream, writing
/// each `Log` entry and stopping at `Stop`: the entries written are
/// `relay_log`, and this law shows they are `relayed` of the complete lines
/// read, so each line is written once, in the stream's order, tagged with
/// its stream. Two such logs that agree come from the same lines of the same
/// stream. That the host performs every action it is given lies outside
/// this law.
pub proof fn relay_keeps_lines_and_source(
    k1: StreamKind,
    reads1: Seq<ReadOutcome>,
    k2: StreamKind,
    reads2: Seq<ReadOutcome>,
)
    ensures
        relay_log(k1, reads1) == relayed(k1, lines_read(reads1)),
        relay_log(k1, reads1) == relay_log(k2, reads2) ==> lines_read(reads1) == lines_read(reads2),
        relay_log(k1, reads1) == relay_log(k2, reads2) && lines_read(reads1).len() > 0 ==> k1 == k2,
{
    lemma_relay_log_is_relayed(k1, reads1);
    lemma_relay_log_is_relayed(k2, reads2);
    lemma_relayed_determines(k1, lines_read(reads1), k2, lines_read(reads2));
}

proof fn lemma_relay_log_is_relayed(kind: StreamKind, reads: Seq<ReadOutcome>)
    ensures
        relay_log(kind, reads) == relayed(kind, lines_read(reads)),
    decreases reads.len(),
{
    if reads.len() == 0 || ends_relay(reads[0]) {
        assert(relayed(kind, Seq::empty()) =~= Seq::empty());
    } else {
        let rest = reads.drop_first();
        lemma_relay_log_is_relayed(kind, rest);
        match reads[0] {
            ReadOutcome::Line(l) => {
                assert(relayed(kind, seq![l@] + lines_read(rest)) =~= seq![stream_tag(kind) + l@]
                    + relayed(kind, lines_read(rest)));
            },
            _ => {},
        }
    }
}

proof fn lemma_relayed_determines(
    k1: StreamKind,
    lines1: Seq<Seq<char>>,
    k2: StreamKind,
    lines2: Seq<Seq<char>>,
)
    ensures
        relayed(k1, lines1) == relayed(k2, lines2) ==> lines1 == lines2,
        relayed(k1, lines1) == relayed(k2, lines2) && lines1.len() > 0 ==> k1 == k2,
{
    reveal_strlit("[backend stdout] ");
    reveal_strlit("[backend stderr] ");
    let t1 = stream_tag(k1);
    let t2 = stream_tag(k2);
    assert(t1.len() == 17 && t2.len() == 17);
    assert(relayed(k1, lines1).len() == lines1.len());
    assert(relayed(k2, lines2).len() == lines2.len());
    if relayed(k1, lines1) == relayed(k2, lines2) {
        assert forall|i: int| 0 <= i < lines1.len() implies lines1[i] == lines2[i] by {
            let e1 = relayed(k1, lines1)[i];
            let e2 = relayed(k2, lines2)[i];
            assert(e1 == e2);
            assert(lines1[i] =~= e1.subrange(17, e1.len() as int));
            assert(lines2[i] =~= e2.subrange(17, e2.len() as int));
        }
        assert(lines1 =~= lines2);
        if lines1.len() > 0 {
            let e = relayed(k1, lines1)[0];
            assert(e[12] == t1[12]);
            assert(relayed(k2, lines2)[0][12] == t2[12]);
        }
    }
}

} // verus!
