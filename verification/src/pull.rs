//! The model-pull progress protocol.
//!
//! The daemon reports a download as a byte stream of newline-delimited JSON
//! records.  A `LineBuffer` reassembles records that span reads; each
//! complete line becomes one progress event (or a raw-text notice when the
//! line is not JSON); a clean close ends the stream, a read failure ends it
//! with an error.  The derived percentage is `completed / total`, scaled to
//! hundredths and clamped — zero when the total is unknown.

use vstd::prelude::*;

use crate::json::{
    pull_record_of, parse_pull_record, utf8_lossy_of, bytes_to_text, PullRecord,
};

verus! {

/// The line separator of the progress protocol.
pub const NEWLINE_BYTE: u8 = 10;

/// Reading `s` byte for byte: the complete lines seen so far (separators
/// excluded) and the still-unterminated remainder.
pub open spec fn spec_split(s: Seq<u8>) -> (Seq<Seq<u8>>, Seq<u8>)
    decreases s.len(),
{
    if s.len() == 0 {
        (Seq::empty(), Seq::empty())
    } else {
        let (lines, rest) = spec_split(s.drop_last());
        if s.last() == NEWLINE_BYTE {
            (lines.push(rest), Seq::empty())
        } else {
            (lines, rest.push(s.last()))
        }
    }
}

/// Buffers stream reads and hands back complete lines; a record that spans
/// several reads is reassembled before it is handed out.
pub struct LineBuffer {
    data: Vec<u8>,
}

impl View for LineBuffer {
    type V = Seq<u8>;

    closed spec fn view(&self) -> Seq<u8> {
        self.data@
    }
}

impl LineBuffer {
    #[verifier::type_invariant]
    closed spec fn wf(&self) -> bool {
        forall|i: int| 0 <= i < self.data@.len() ==> self.data@[i] != NEWLINE_BYTE
    }

    pub fn new() -> (r: LineBuffer)
        ensures
            r@ == Seq::<u8>::empty(),
    {
        LineBuffer { data: Vec::new() }
    }

    /// Feeds one read's bytes in; returns the lines completed by it, in
    /// order.  What was buffered plus what came in is exactly the returned
    /// lines (each with its separator) followed by the new remainder.
    pub fn push_chunk(&mut self, chunk: &[u8]) -> (lines: Vec<Vec<u8>>)
        ensures
            lines.deep_view() == spec_split(old(self)@ + chunk@).0,
            final(self)@ == spec_split(old(self)@ + chunk@).1,
    {
        proof {
            use_type_invariant(&*self);
        }
        let ghost whole = old(self)@ + chunk@;
        let mut rest: Vec<u8> = Vec::new();
        core::mem::swap(&mut self.data, &mut rest);
        let mut lines: Vec<Vec<u8>> = Vec::new();
        let n = chunk.len();
        let mut k: usize = 0;
        proof {
            assert(old(self)@ + chunk@.take(0) =~= old(self)@);
            lemma_split_no_newline(old(self)@);
        }
        while k < n
            invariant
                k <= n,
                n == chunk@.len(),
                lines.deep_view() == spec_split(old(self)@ + chunk@.take(k as int)).0,
                rest@ == spec_split(old(self)@ + chunk@.take(k as int)).1,
            decreases n - k,
        {
            let b = chunk[k];
            proof {
                assert((old(self)@ + chunk@.take(k + 1)).drop_last() =~= old(self)@ + chunk@.take(
                    k as int,
                ));
                assert((old(self)@ + chunk@.take(k + 1)).last() == chunk@[k as int]);
            }
            if b == NEWLINE_BYTE {
                let full = rest;
                rest = Vec::new();
                lines.push(full);
                proof {
                    assert(lines.deep_view() =~~= spec_split(old(self)@ + chunk@.take(k + 1)).0);
                }
            } else {
                rest.push(b);
                proof {
                    assert(lines.deep_view() =~~= spec_split(old(self)@ + chunk@.take(k + 1)).0);
                }
            }
            k += 1;
        }
        proof {
            assert(old(self)@ + chunk@.take(n as int) =~= whole);
            lemma_split_lines_no_newline(whole);
        }
        self.data = rest;
        lines
    }
}

/// A byte sequence without separators splits into no lines and itself.
pub proof fn lemma_split_no_newline(s: Seq<u8>)
    requires
        forall|i: int| 0 <= i < s.len() ==> s[i] != NEWLINE_BYTE,
    ensures
        spec_split(s).0 == Seq::<Seq<u8>>::empty(),
        spec_split(s).1 == s,
    decreases s.len(),
{
    if s.len() > 0 {
        lemma_split_no_newline(s.drop_last());
        assert(spec_split(s).1 =~= s);
    } else {
        assert(spec_split(s).1 =~= s);
    }
}

/// The remainder of a split never holds a separator.
pub proof fn lemma_split_lines_no_newline(s: Seq<u8>)
    ensures
        forall|i: int| 0 <= i < spec_split(s).1.len() ==> spec_split(s).1[i] != NEWLINE_BYTE,
    decreases s.len(),
{
    if s.len() > 0 {
        lemma_split_lines_no_newline(s.drop_last());
        let rest0 = spec_split(s.drop_last()).1;
        let rest1 = spec_split(s).1;
        if s.last() != NEWLINE_BYTE {
            assert forall|i: int| 0 <= i < rest1.len() implies rest1[i] != NEWLINE_BYTE by {
                if i < rest0.len() {
                    assert(rest1[i] == rest0[i]);
                } else {
                    assert(rest1[i] == s.last());
                }
            }
        }
    }
}

/// One parsed progress step: the daemon's status label, the byte counts,
/// and the derived percentage.
pub struct ProgressEvent {
    pub status: String,
    pub total: u64,
    pub completed: u64,
    pub percent: u64,
}

/// `completed / total` scaled to hundredths and clamped to 100; zero when
/// the total is unknown.
pub open spec fn spec_percent(completed: u64, total: u64) -> u64 {
    if total == 0 {
        0
    } else if completed as int * 100 / total as int > 100 {
        100
    } else {
        (completed as int * 100 / total as int) as u64
    }
}

pub fn derive_percent(completed: u64, total: u64) -> (r: u64)
    ensures
        r == spec_percent(completed, total),
{
    if total == 0 {
        0
    } else {
        let q = (completed as u128) * 100 / (total as u128);
        if q > 100 {
            100
        } else {
            q as u64
        }
    }
}

/// Percent derivation, stated as a law: an unknown total derives zero (no
/// division happens); a finished download (`completed == total > 0`)
/// derives exactly 100; an overshooting count clamps to 100; and within
/// the total, the derivation is the exact scaled quotient, at most 100.
pub proof fn lemma_percent_derivation(completed: u64, total: u64)
    ensures
        total == 0 ==> spec_percent(completed, total) == 0,
        total > 0 && completed == total ==> spec_percent(completed, total) == 100,
        total > 0 && completed > total ==> spec_percent(completed, total) == 100,
        total > 0 && completed <= total ==> spec_percent(completed, total) == completed as int
            * 100 / total as int <= 100,
{
    if total > 0 {
        let t = total as int;
        let c = completed as int;
        vstd::arithmetic::div_mod::lemma_div_multiples_vanish(100, t);
        assert((t * 100) / t == 100);
        assert(t * 100 == 100 * t) by (nonlinear_arith);
        if completed >= total {
            assert(t * 100 <= c * 100) by (nonlinear_arith)
                requires
                    t <= c,
            ;
            vstd::arithmetic::div_mod::lemma_div_is_ordered(t * 100, c * 100, t);
        }
        if completed <= total {
            assert(c * 100 <= t * 100) by (nonlinear_arith)
                requires
                    c <= t,
            ;
            vstd::arithmetic::div_mod::lemma_div_is_ordered(c * 100, t * 100, t);
        }
    }
}

/// The events of one pull stream.
pub enum PullEvent {
    /// One structured progress record.
    Progress(ProgressEvent),
    /// A line the daemon sent that was not JSON, forwarded as text rather
    /// than dropped.
    Raw(String),
    /// The stream closed cleanly: terminal.
    End,
    /// The stream failed with this description: terminal.
    Error(String),
}

pub enum PullEventV {
    Progress { status: Seq<char>, total: u64, completed: u64, percent: u64 },
    Raw(Seq<char>),
    End,
    Error(Seq<char>),
}

impl View for PullEvent {
    type V = PullEventV;

    open spec fn view(&self) -> PullEventV {
        match self {
            PullEvent::Progress(p) => PullEventV::Progress {
                status: p.status@,
                total: p.total,
                completed: p.completed,
                percent: p.percent,
            },
            PullEvent::Raw(s) => PullEventV::Raw(s@),
            PullEvent::End => PullEventV::End,
            PullEvent::Error(e) => PullEventV::Error(e@),
        }
    }
}

pub open spec fn pull_events_view(v: Seq<PullEvent>) -> Seq<PullEventV> {
    v.map_values(|e: PullEvent| e@)
}

/// Trailing ASCII whitespace removed.
pub open spec fn spec_trim_end(s: Seq<u8>) -> Seq<u8>
    decreases s.len(),
{
    if s.len() > 0 && is_ascii_space(s.last()) {
        spec_trim_end(s.drop_last())
    } else {
        s
    }
}

/// Leading ASCII whitespace removed.
pub open spec fn spec_trim_start(s: Seq<u8>) -> Seq<u8>
    decreases s.len(),
{
    if s.len() > 0 && is_ascii_space(s.first()) {
        spec_trim_start(s.drop_first())
    } else {
        s
    }
}

pub open spec fn spec_trim(s: Seq<u8>) -> Seq<u8> {
    spec_trim_start(spec_trim_end(s))
}

pub open spec fn is_ascii_space(b: u8) -> bool {
    b == 32 || b == 9 || b == 10 || b == 13
}

fn ascii_space(b: u8) -> (r: bool)
    ensures
        r == is_ascii_space(b),
{
    b == 32 || b == 9 || b == 10 || b == 13
}

/// The line with surrounding ASCII whitespace removed (the protocol is
/// ASCII-framed; a carriage return before the separator goes with it).
pub fn trim_line(line: &[u8]) -> (r: Vec<u8>)
    ensures
        r@ == spec_trim(line@),
{
    let n = line.len();
    let mut end = n;
    proof {
        assert(line@.take(n as int) =~= line@);
    }
    while end > 0 && ascii_space(line[end - 1])
        invariant
            end <= n,
            n == line@.len(),
            spec_trim_end(line@.take(end as int)) == spec_trim_end(line@),
        decreases end,
    {
        proof {
            assert(line@.take(end as int).last() == line@[end - 1]);
            assert(line@.take(end as int).drop_last() =~= line@.take(end - 1));
        }
        end -= 1;
    }
    proof {
        assert(spec_trim_end(line@.take(end as int)) == line@.take(end as int));
    }
    let mut start: usize = 0;
    while start < end && ascii_space(line[start])
        invariant
            start <= end <= n,
            n == line@.len(),
            spec_trim_end(line@) == line@.take(end as int),
            spec_trim_start(line@.subrange(start as int, end as int)) == spec_trim_start(
                line@.take(end as int),
            ),
        decreases end - start,
    {
        proof {
            let cur = line@.subrange(start as int, end as int);
            assert(cur.first() == line@[start as int]);
            assert(cur.drop_first() =~= line@.subrange(start + 1, end as int));
        }
        start += 1;
    }
    proof {
        let cur = line@.subrange(start as int, end as int);
        if start < end {
            assert(cur.first() == line@[start as int]);
        }
        assert(spec_trim_start(cur) == cur);
    }
    let sub = vstd::slice::slice_subrange(line, start, end);
    vstd::slice::slice_to_vec(sub)
}

/// What one raw line contributes: nothing when blank; a structured
/// progress event when it parses; otherwise the line forwarded as text.
pub open spec fn spec_line_event(line: Seq<u8>) -> Option<PullEventV> {
    let t = spec_trim(line);
    if t.len() == 0 {
        None
    } else {
        match pull_record_of(t) {
            Some((status, total, completed)) => Some(
                PullEventV::Progress {
                    status,
                    total,
                    completed,
                    percent: spec_percent(completed, total),
                },
            ),
            None => Some(PullEventV::Raw(utf8_lossy_of(t))),
        }
    }
}

pub open spec fn opt_event_view(o: Option<PullEvent>) -> Option<PullEventV> {
    match o {
        Some(e) => Some(e@),
        None => None,
    }
}

pub fn line_event(line: &Vec<u8>) -> (r: Option<PullEvent>)
    ensures
        opt_event_view(r) == spec_line_event(line@),
{
    let trimmed = trim_line(line.as_slice());
    if trimmed.len() == 0 {
        return None;
    }
    match parse_pull_record(trimmed.as_slice()) {
        Some(rec) => {
            let PullRecord { status, total, completed } = rec;
            let percent = derive_percent(completed, total);
            Some(PullEvent::Progress(ProgressEvent { status, total, completed, percent }))
        },
        None => Some(PullEvent::Raw(bytes_to_text(trimmed.as_slice()))),
    }
}

/// The events of the complete lines of one read, in order.
pub open spec fn spec_line_events(lines: Seq<Seq<u8>>) -> Seq<PullEventV>
    decreases lines.len(),
{
    if lines.len() == 0 {
        Seq::empty()
    } else {
        spec_line_events(lines.drop_last()) + match spec_line_event(lines.last()) {
            Some(e) => seq![e],
            None => Seq::empty(),
        }
    }
}

/// What the surrounding read loop observed from the transport.
pub enum PullInput {
    /// One read's bytes.
    Data(Vec<u8>),
    /// The stream closed cleanly.
    Closed,
    /// The stream failed with this description.
    Failed(String),
}

pub enum PullInputV {
    Data(Seq<u8>),
    Closed,
    Failed(Seq<char>),
}

impl View for PullInput {
    type V = PullInputV;

    open spec fn view(&self) -> PullInputV {
        match self {
            PullInput::Data(b) => PullInputV::Data(b@),
            PullInput::Closed => PullInputV::Closed,
            PullInput::Failed(e) => PullInputV::Failed(e@),
        }
    }
}

/// The events one transport observation produces, and the buffer and
/// terminal flag after it.
pub open spec fn spec_pump_step(buf: Seq<u8>, input: PullInputV) -> (Seq<PullEventV>, Seq<u8>, bool) {
    match input {
        PullInputV::Data(bytes) => (
            spec_line_events(spec_split(buf + bytes).0),
            spec_split(buf + bytes).1,
            false,
        ),
        PullInputV::Closed => (seq![PullEventV::End], buf, true),
        PullInputV::Failed(e) => (seq![PullEventV::Error(e)], buf, true),
    }
}

/// Drives one pull stream: feed it what the transport yields, forward the
/// events it returns.  After the terminal event (end or error) it is done
/// and takes nothing further, so no events follow a terminal one.
pub struct PullPump {
    buffer: LineBuffer,
    done: bool,
}

impl PullPump {
    pub closed spec fn buffered(&self) -> Seq<u8> {
        self.buffer@
    }

    pub closed spec fn is_done(&self) -> bool {
        self.done
    }

    pub fn new() -> (r: PullPump)
        ensures
            r.buffered() == Seq::<u8>::empty(),
            !r.is_done(),
    {
        PullPump { buffer: LineBuffer::new(), done: false }
    }

    pub fn step(&mut self, input: PullInput) -> (events: Vec<PullEvent>)
        requires
            !old(self).is_done(),
        ensures
            pull_events_view(events@) == spec_pump_step(old(self).buffered(), input@).0,
            final(self).buffered() == spec_pump_step(old(self).buffered(), input@).1,
            final(self).is_done() == spec_pump_step(old(self).buffered(), input@).2,
    {
        match input {
            PullInput::Data(bytes) => {
                let lines = self.buffer.push_chunk(bytes.as_slice());
                let ghost line_views = lines.deep_view();
                let mut events: Vec<PullEvent> = Vec::new();
                let n = lines.len();
                let mut i: usize = 0;
                while i < n
                    invariant
                        i <= n,
                        n == lines@.len(),
                        line_views == lines.deep_view(),
                        pull_events_view(events@) == spec_line_events(line_views.take(i as int)),
                    decreases n - i,
                {
                    proof {
                        assert(line_views.take(i + 1).drop_last() =~= line_views.take(i as int));
                        assert(line_views.take(i + 1).last() == lines@[i as int]@);
                    }
                    match line_event(&lines[i]) {
                        Some(e) => {
                            events.push(e);
                            proof {
                                assert(pull_events_view(events@) =~= spec_line_events(
                                    line_views.take(i + 1),
                                ));
                            }
                        },
                        None => {
                            proof {
                                assert(pull_events_view(events@) =~= spec_line_events(
                                    line_views.take(i + 1),
                                ));
                            }
                        },
                    }
                    i += 1;
                }
                proof {
                    assert(line_views.take(n as int) =~= line_views);
                }
                events
            },
            PullInput::Closed => {
                self.done = true;
                let mut events: Vec<PullEvent> = Vec::new();
                events.push(PullEvent::End);
                proof {
                    assert(pull_events_view(events@) =~= seq![PullEventV::End]);
                }
                events
            },
            PullInput::Failed(e) => {
                self.done = true;
                let mut events: Vec<PullEvent> = Vec::new();
                events.push(PullEvent::Error(e));
                proof {
                    assert(pull_events_view(events@) =~= spec_pump_step(
                        old(self).buffered(),
                        input@,
                    ).0);
                }
                events
            },
        }
    }
}

/// The pull frame, stated as a law: bytes from the transport yield only
/// progress or raw-text events and leave the stream open; the terminal
/// observations yield exactly their one terminal event.  Together with the
/// pump accepting nothing once done, a pull stream's event sequence is
/// progress events followed by one end or one error.
pub proof fn lemma_pull_step_framing(buf: Seq<u8>, input: PullInputV)
    ensures
        input matches PullInputV::Data(bytes) ==> {
            let evs = spec_pump_step(buf, input).0;
            &&& !spec_pump_step(buf, input).2
            &&& forall|i: int| 0 <= i < evs.len() ==> !(#[trigger] evs[i] is End) && !(evs[i]
                is Error)
        },
        input is Closed ==> spec_pump_step(buf, input).0 =~= seq![PullEventV::End]
            && spec_pump_step(buf, input).2,
        input matches PullInputV::Failed(e) ==> spec_pump_step(buf, input).0 =~= seq![
            PullEventV::Error(e),
        ] && spec_pump_step(buf, input).2,
{
    match input {
        PullInputV::Data(bytes) => {
            lemma_line_events_not_terminal(spec_split(buf + bytes).0);
        },
        _ => {},
    }
}

proof fn lemma_line_events_not_terminal(lines: Seq<Seq<u8>>)
    ensures
        forall|i: int| 0 <= i < spec_line_events(lines).len() ==> !(
        #[trigger] spec_line_events(lines)[i] is End) && !(spec_line_events(lines)[i] is Error),
    decreases lines.len(),
{
    if lines.len() > 0 {
        lemma_line_events_not_terminal(lines.drop_last());
    }
}

} // verus!
