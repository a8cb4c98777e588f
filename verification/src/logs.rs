//! Line splitting for the captured output of a server process.
//!
//! The bytes of a stream arrive in chunks of any size. A [`LineSplitter`]
//! turns them into lines: a line ends at a line feed or a carriage return,
//! empty lines are dropped, a line that grows beyond the limit without a
//! terminator is cut there, and the end of the stream flushes what is left.

use crate::events::{LogLineEvent, StreamOrigin};
use vstd::prelude::*;
use vstd::string::*;
use vstd::utf8::{decode_utf8, valid_utf8};

verus! {

/// A pending line is flushed once it holds more than this many bytes.
pub const LINE_LIMIT: usize = 32 * 1024;

/// The error of `String::from_utf8`.
#[verifier::external_type_specification]
#[verifier::external_body]
pub struct ExFromUtf8Error(std::string::FromUtf8Error);

/// `String::from_utf8` succeeds exactly on byte sequences that are valid
/// UTF-8, and then the string holds the characters they encode.
pub assume_specification[ String::from_utf8 ](vec: Vec<u8>) -> (r: Result<
    String,
    std::string::FromUtf8Error,
>)
    ensures
        r is Ok <==> valid_utf8(vec@),
        r matches Ok(s) ==> s@ == decode_utf8(vec@),
;

/// Whether `b` ends a line.
pub open spec fn is_terminator(b: u8) -> bool {
    b == 10 || b == 13
}

/// One byte's effect on the pending line: the line that is emitted, if any,
/// and what is pending afterwards.
pub open spec fn split_byte(pending: Seq<u8>, b: u8) -> (Option<Seq<u8>>, Seq<u8>) {
    if is_terminator(b) {
        if pending.len() > 0 {
            (Some(pending), Seq::empty())
        } else {
            (None, pending)
        }
    } else if pending.len() + 1 > LINE_LIMIT {
        (Some(pending.push(b)), Seq::empty())
    } else {
        (None, pending.push(b))
    }
}

/// The lines that `input` completes when it arrives behind a pending line,
/// and what is pending after it.
pub open spec fn split(pending: Seq<u8>, input: Seq<u8>) -> (Seq<Seq<u8>>, Seq<u8>)
    decreases input.len(),
{
    if input.len() == 0 {
        (Seq::empty(), pending)
    } else {
        let before = split(pending, input.drop_last());
        let last = split_byte(before.1, input.last());
        match last.0 {
            Some(line) => (before.0.push(line), last.1),
            None => (before.0, last.1),
        }
    }
}

/// What the end of the stream flushes: the pending line, unless it is empty.
pub open spec fn flushed(pending: Seq<u8>) -> Option<Seq<u8>> {
    if pending.len() > 0 {
        Some(pending)
    } else {
        None
    }
}

/// All lines of a stream that consists of `input` and then ends.
pub open spec fn lines_of(input: Seq<u8>) -> Seq<Seq<u8>> {
    let done = split(Seq::empty(), input);
    match flushed(done.1) {
        Some(line) => done.0.push(line),
        None => done.0,
    }
}

/// How a stream is cut into chunks makes no difference: feeding `a` and then
/// `b` gives the same lines and the same pending rest as feeding both at
/// once.
pub proof fn split_is_independent_of_chunking(pending: Seq<u8>, a: Seq<u8>, b: Seq<u8>)
    ensures
        split(pending, a + b) == (
            split(pending, a).0 + split(split(pending, a).1, b).0,
            split(split(pending, a).1, b).1,
        ),
    decreases b.len(),
{
    let first = split(pending, a);
    if b.len() == 0 {
        assert(a + b =~= a);
        assert(first.0 + Seq::<Seq<u8>>::empty() =~= first.0);
    } else {
        split_is_independent_of_chunking(pending, a, b.drop_last());
        assert((a + b).drop_last() =~= a + b.drop_last());
        assert((a + b).last() == b.last());
        let rest = split(first.1, b.drop_last());
        let last = split_byte(rest.1, b.last());
        match last.0 {
            Some(line) => {
                assert((first.0 + rest.0).push(line) =~= first.0 + rest.0.push(line));
            },
            None => {},
        }
    }
}

/// The lines of a stream are what its chunks yield one after the other,
/// followed by what the end of the stream flushes.
pub proof fn lines_of_a_stream_in_two_chunks(a: Seq<u8>, b: Seq<u8>)
    ensures
        lines_of(a + b) == match flushed(split(split(Seq::empty(), a).1, b).1) {
            Some(line) => (split(Seq::empty(), a).0 + split(split(Seq::empty(), a).1, b).0).push(
                line,
            ),
            None => split(Seq::empty(), a).0 + split(split(Seq::empty(), a).1, b).0,
        },
{
    split_is_independent_of_chunking(Seq::empty(), a, b);
}

/// The pending line never holds more than the limit, so the memory that a
/// splitter needs is bounded whatever the stream sends.
pub proof fn pending_stays_bounded(pending: Seq<u8>, input: Seq<u8>)
    requires
        pending.len() <= LINE_LIMIT,
    ensures
        split(pending, input).1.len() <= LINE_LIMIT,
    decreases input.len(),
{
    if input.len() > 0 {
        pending_stays_bounded(pending, input.drop_last());
    }
}

/// Every emitted line is non-empty, holds no terminator and is at most one
/// byte longer than the limit.
pub proof fn lines_are_well_formed(pending: Seq<u8>, input: Seq<u8>, i: int)
    requires
        pending.len() <= LINE_LIMIT,
        forall|k: int| 0 <= k < pending.len() ==> !is_terminator(pending[k]),
        0 <= i < split(pending, input).0.len(),
    ensures
        0 < split(pending, input).0[i].len() <= LINE_LIMIT + 1,
        forall|k: int|
            0 <= k < split(pending, input).0[i].len() ==> !is_terminator(
                #[trigger] split(pending, input).0[i][k],
            ),
        forall|k: int|
            0 <= k < split(pending, input).1.len() ==> !is_terminator(
                #[trigger] split(pending, input).1[k],
            ),
    decreases input.len(),
{
    if input.len() > 0 {
        let before = split(pending, input.drop_last());
        pending_stays_bounded(pending, input.drop_last());
        rest_has_no_terminator(pending, input.drop_last());
        if i < before.0.len() {
            lines_are_well_formed(pending, input.drop_last(), i);
        }
    }
}

proof fn rest_has_no_terminator(pending: Seq<u8>, input: Seq<u8>)
    requires
        forall|k: int| 0 <= k < pending.len() ==> !is_terminator(pending[k]),
    ensures
        forall|k: int|
            0 <= k < split(pending, input).1.len() ==> !is_terminator(
                #[trigger] split(pending, input).1[k],
            ),
    decreases input.len(),
{
    let rest = split(pending, input).1;
    if input.len() > 0 {
        rest_has_no_terminator(pending, input.drop_last());
        let before = split(pending, input.drop_last()).1;
        assert forall|k: int| 0 <= k < rest.len() implies !is_terminator(#[trigger] rest[k]) by {
            if k < before.len() {
                assert(!is_terminator(before[k]));
            }
        }
    } else {
        assert forall|k: int| 0 <= k < rest.len() implies !is_terminator(#[trigger] rest[k]) by {
            assert(!is_terminator(pending[k]));
        }
    }
}

/// The byte sequences that a list of lines holds.
pub open spec fn line_views(lines: Seq<Vec<u8>>) -> Seq<Seq<u8>> {
    Seq::new(lines.len(), |i: int| lines[i]@)
}

/// Splits the bytes of one stream into lines.
pub struct LineSplitter {
    /// The bytes of the line that is not complete yet.
    pub pending: Vec<u8>,
}

impl LineSplitter {
    /// The pending line is within the limit.
    pub open spec fn wf(&self) -> bool {
        self.pending@.len() <= LINE_LIMIT
    }

    /// A splitter at the start of a stream.
    pub fn new() -> (s: LineSplitter)
        ensures
            s.wf(),
            s.pending@ == Seq::<u8>::empty(),
    {
        LineSplitter { pending: Vec::new() }
    }

    /// Takes the next chunk of the stream and returns the lines it
    /// completes, in order.
    pub fn feed(&mut self, chunk: &[u8]) -> (lines: Vec<Vec<u8>>)
        requires
            old(self).wf(),
        ensures
            final(self).wf(),
            line_views(lines@) == split(old(self).pending@, chunk@).0,
            final(self).pending@ == split(old(self).pending@, chunk@).1,
    {
        let mut lines: Vec<Vec<u8>> = Vec::new();
        let mut i: usize = 0;
        assert(chunk@.take(0) =~= Seq::<u8>::empty());
        assert(line_views(lines@) =~= Seq::<Seq<u8>>::empty());
        while i < chunk.len()
            invariant
                i <= chunk.len(),
                self.wf(),
                line_views(lines@) == split(old(self).pending@, chunk@.take(i as int)).0,
                self.pending@ == split(old(self).pending@, chunk@.take(i as int)).1,
            decreases chunk.len() - i,
        {
            let b = chunk[i];
            let ghost before = line_views(lines@);
            let ghost taken = chunk@.take(i + 1);
            proof {
                assert(taken.drop_last() =~= chunk@.take(i as int));
                assert(taken.last() == b);
            }
            if b == 10 || b == 13 {
                if self.pending.len() > 0 {
                    let mut line: Vec<u8> = Vec::new();
                    std::mem::swap(&mut self.pending, &mut line);
                    let ghost emitted = line@;
                    lines.push(line);
                    assert(line_views(lines@) =~= before.push(emitted));
                }
            } else {
                self.pending.push(b);
                if self.pending.len() > LINE_LIMIT {
                    let mut line: Vec<u8> = Vec::new();
                    std::mem::swap(&mut self.pending, &mut line);
                    let ghost emitted = line@;
                    lines.push(line);
                    assert(line_views(lines@) =~= before.push(emitted));
                }
            }
            i = i + 1;
        }
        assert(chunk@.take(chunk.len() as int) =~= chunk@);
        lines
    }

    /// Ends the stream: returns the pending line, if there is one, and
    /// leaves the splitter empty.
    pub fn finish(&mut self) -> (line: Option<Vec<u8>>)
        requires
            old(self).wf(),
        ensures
            final(self).pending@ == Seq::<u8>::empty(),
            final(self).wf(),
            match line {
                Some(l) => flushed(old(self).pending@) == Some(l@),
                None => flushed(old(self).pending@) is None,
            },
    {
        if self.pending.len() > 0 {
            let mut line: Vec<u8> = Vec::new();
            std::mem::swap(&mut self.pending, &mut line);
            Some(line)
        } else {
            None
        }
    }
}

/// The event for one raw line: its text, if the bytes are valid UTF-8; a
/// line that is not is dropped.
pub fn line_event(raw: Vec<u8>, origin: StreamOrigin) -> (event: Option<LogLineEvent>)
    ensures
        match event {
            Some(e) => valid_utf8(raw@) && e.line@ == decode_utf8(raw@) && e.origin == origin,
            None => !valid_utf8(raw@),
        },
{
    match String::from_utf8(raw) {
        Ok(line) => Some(LogLineEvent { line, origin }),
        Err(_) => None,
    }
}

} // verus!
