//! The export stream: each record, serialized as one JSON object, is framed
//! as a line of its own and handed to the transport as soon as the cursor
//! yields it. The stream state holds no record.
use vstd::prelude::*;

verus! {

/// The newline byte that ends each framed record.
pub const NEWLINE: u8 = 10;

/// A record that could not be fetched from the cursor or serialized.
#[derive(Clone, Copy, Debug, PartialEq, Eq, Structural)]
pub struct RecordFailure;

/// The store could not open a cursor.
#[derive(Clone, Copy, Debug, PartialEq, Eq, Structural)]
pub struct OpenFailure;

#[derive(Clone, Copy, Debug, PartialEq, Eq, Structural)]
pub enum ExportPhase {
    Opening,
    Streaming,
    Completed,
    TerminatedEarly,
    OpenFailed,
}

pub const STATUS_OK: u16 = 200;

pub const STATUS_SERVER_ERROR: u16 = 500;

pub open spec fn has_newline(s: Seq<u8>) -> bool {
    exists|i: int| 0 <= i < s.len() && s[i] == NEWLINE
}

/// One record's line: its JSON followed by a newline.
pub open spec fn frame(json: Seq<u8>) -> Seq<u8> {
    json.push(NEWLINE)
}

/// The response body made of `lines`, in order.
pub open spec fn body_of(lines: Seq<Seq<u8>>) -> Seq<u8>
    decreases lines.len(),
{
    if lines.len() == 0 {
        Seq::empty()
    } else {
        body_of(lines.drop_last()) + frame(lines.last())
    }
}

pub open spec fn count_newlines(s: Seq<u8>) -> nat
    decreases s.len(),
{
    if s.len() == 0 {
        0
    } else {
        count_newlines(s.drop_last()) + if s.last() == NEWLINE { 1nat } else { 0nat }
    }
}

/// Whether `json` holds a newline byte.
pub fn contains_newline(json: &[u8]) -> (r: bool)
    ensures
        r == has_newline(json@),
{
    let mut i: usize = 0;
    while i < json.len()
        invariant
            i <= json@.len(),
            forall|j: int| 0 <= j < i ==> json@[j] != NEWLINE,
        decreases json@.len() - i,
    {
        if json[i] == NEWLINE {
            return true;
        }
        i = i + 1;
    }
    false
}

/// Frames one serialized record as a line.
pub fn frame_line(json: Vec<u8>) -> (r: Vec<u8>)
    ensures
        r@ == frame(json@),
{
    let mut line = json;
    line.push(NEWLINE);
    line
}

/// The state of one export request.
pub struct ExportStream {
    phase: ExportPhase,
    sent: Ghost<Seq<Seq<u8>>>,
}

impl ExportStream {
    pub closed spec fn phase_spec(&self) -> ExportPhase {
        self.phase
    }

    /// The serialized records sent so far, in cursor order.
    pub closed spec fn sent(&self) -> Seq<Seq<u8>> {
        self.sent@
    }

    /// The body sent so far.
    pub open spec fn body(&self) -> Seq<u8> {
        body_of(self.sent())
    }

    pub fn new() -> (r: ExportStream)
        ensures
            r.phase_spec() == ExportPhase::Opening,
            r.sent() == Seq::<Seq<u8>>::empty(),
    {
        ExportStream { phase: ExportPhase::Opening, sent: Ghost(Seq::empty()) }
    }

    pub fn phase(&self) -> (r: ExportPhase)
        ensures
            r == self.phase_spec(),
    {
        self.phase
    }

    /// The result of opening the cursor, and the response status: success
    /// starts the stream; failure ends the request with a server error and
    /// no body.
    pub fn on_open(&mut self, opened: Result<(), OpenFailure>) -> (status: u16)
        requires
            old(self).phase_spec() == ExportPhase::Opening,
        ensures
            final(self).sent() == old(self).sent(),
            opened is Ok ==> status == STATUS_OK && final(self).phase_spec() == ExportPhase::Streaming,
            opened is Err ==> status == STATUS_SERVER_ERROR && final(self).phase_spec()
                == ExportPhase::OpenFailed,
    {
        match opened {
            Ok(()) => {
                self.phase = ExportPhase::Streaming;
                STATUS_OK
            },
            Err(_) => {
                self.phase = ExportPhase::OpenFailed;
                STATUS_SERVER_ERROR
            },
        }
    }

    /// What the cursor yielded next: `None` when it is exhausted. Returns the
    /// chunk to send, built from that record alone. A failed record, or one
    /// whose JSON would break the line framing, ends the stream early.
    pub fn on_next(&mut self, item: Option<Result<Vec<u8>, RecordFailure>>) -> (r: Option<Vec<u8>>)
        requires
            old(self).phase_spec() == ExportPhase::Streaming,
        ensures
            match item {
                None => {
                    &&& r is None
                    &&& final(self).phase_spec() == ExportPhase::Completed
                    &&& final(self).sent() == old(self).sent()
                },
                Some(Err(_)) => {
                    &&& r is None
                    &&& final(self).phase_spec() == ExportPhase::TerminatedEarly
                    &&& final(self).sent() == old(self).sent()
                },
                Some(Ok(json)) => if has_newline(json@) {
                    &&& r is None
                    &&& final(self).phase_spec() == ExportPhase::TerminatedEarly
                    &&& final(self).sent() == old(self).sent()
                } else {
                    &&& r matches Some(chunk) && chunk@ == frame(json@)
                    &&& final(self).phase_spec() == ExportPhase::Streaming
                    &&& final(self).sent() == old(self).sent().push(json@)
                    &&& final(self).body() == old(self).body() + frame(json@)
                },
            },
    {
        match item {
            None => {
                self.phase = ExportPhase::Completed;
                None
            },
            Some(Err(_)) => {
                self.phase = ExportPhase::TerminatedEarly;
                None
            },
            Some(Ok(json)) => {
                if contains_newline(json.as_slice()) {
                    self.phase = ExportPhase::TerminatedEarly;
                    None
                } else {
                    let ghost j = json@;
                    let ghost before = self.sent@;
                    self.sent = Ghost(self.sent@.push(j));
                    assert(self.sent@.drop_last() =~= before);
                    Some(frame_line(json))
                }
            },
        }
    }
}

proof fn lemma_count_newlines_concat(a: Seq<u8>, b: Seq<u8>)
    ensures
        count_newlines(a + b) == count_newlines(a) + count_newlines(b),
    decreases b.len(),
{
    if b.len() > 0 {
        lemma_count_newlines_concat(a, b.drop_last());
        assert((a + b).drop_last() =~= a + b.drop_last());
    }
}

proof fn lemma_no_newline_count(s: Seq<u8>)
    requires
        !has_newline(s),
    ensures
        count_newlines(s) == 0,
    decreases s.len(),
{
    if s.len() > 0 {
        assert(!has_newline(s.drop_last())) by {
            if has_newline(s.drop_last()) {
                let i = choose|i: int| 0 <= i < s.len() - 1 && s.drop_last()[i] == NEWLINE;
                assert(s[i] == NEWLINE);
            }
        }
        lemma_no_newline_count(s.drop_last());
        assert(s.last() == s[s.len() - 1]);
    }
}

/// Line framing: a body made of records none of which holds a newline has
/// exactly one newline per record, and ends with one when it is not empty,
/// so each record is a complete line of its own.
pub proof fn lemma_body_lines(lines: Seq<Seq<u8>>)
    requires
        forall|i: int| 0 <= i < lines.len() ==> !has_newline(#[trigger] lines[i]),
    ensures
        count_newlines(body_of(lines)) == lines.len(),
        lines.len() > 0 ==> body_of(lines).last() == NEWLINE,
    decreases lines.len(),
{
    if lines.len() > 0 {
        let pre = lines.drop_last();
        assert forall|i: int| 0 <= i < pre.len() implies !has_newline(#[trigger] pre[i]) by {
            assert(pre[i] == lines[i]);
        }
        lemma_body_lines(pre);
        let last = lines.last();
        assert(!has_newline(lines[lines.len() - 1]));
        lemma_no_newline_count(last);
        lemma_count_newlines_concat(body_of(pre), frame(last));
        assert(frame(last).drop_last() =~= last);
    }
}

proof fn lemma_body_concat(a: Seq<Seq<u8>>, b: Seq<Seq<u8>>)
    ensures
        body_of(a + b) == body_of(a) + body_of(b),
    decreases b.len(),
{
    if b.len() == 0 {
        assert(a + b =~= a);
        assert(body_of(a) + body_of(b) =~= body_of(a));
    } else {
        lemma_body_concat(a, b.drop_last());
        assert((a + b).drop_last() =~= a + b.drop_last());
        assert((a + b).last() == b.last());
    }
}

/// Lines come out in order: the body is the lines before record `i`, then
/// record `i` framed as a line of its own, then the lines after it. With no
/// newline inside any record, exactly `i` newlines precede record `i`.
pub proof fn lemma_body_line_at(lines: Seq<Seq<u8>>, i: int)
    requires
        0 <= i < lines.len(),
        forall|k: int| 0 <= k < lines.len() ==> !has_newline(#[trigger] lines[k]),
    ensures
        body_of(lines) == body_of(lines.take(i)) + frame(lines[i]) + body_of(lines.skip(i + 1)),
        count_newlines(body_of(lines.take(i))) == i,
{
    let pre = lines.take(i);
    let upto = lines.take(i + 1);
    let post = lines.skip(i + 1);
    assert(lines =~= upto + post);
    lemma_body_concat(upto, post);
    assert(upto.drop_last() =~= pre);
    assert(upto.last() == lines[i]);
    assert forall|k: int| 0 <= k < pre.len() implies !has_newline(#[trigger] pre[k]) by {
        assert(pre[k] == lines[k]);
    }
    lemma_body_lines(pre);
}

} // verus!
