//! Assembling one text line from the bytes a port delivers one at a time.

use vstd::prelude::*;
use crate::errors::{IoErrorKind, Unavailable};
use crate::text::push_char;

verus! {

/// The text of a line received as `bytes`: each byte read as the character
/// with the same code point, carriage returns (13) left out.
pub open spec fn line_text(bytes: Seq<u8>) -> Seq<char>
    decreases bytes.len(),
{
    if bytes.len() == 0 {
        Seq::empty()
    } else if bytes.last() == 13 {
        line_text(bytes.drop_last())
    } else {
        line_text(bytes.drop_last()).push(bytes.last() as char)
    }
}

/// What one attempt to read a single byte from the port gave.
pub enum ByteEvent {
    /// The port could not be used at all.
    Unavailable(Unavailable),
    /// One byte arrived.
    Byte(u8),
    /// The read returned no data.
    NoData,
    /// The read failed.
    Failed(IoErrorKind),
}

/// A line being received: the bytes taken so far and their text.
pub struct LineReader {
    line: String,
    received: Ghost<Seq<u8>>,
}

impl LineReader {
    #[verifier::type_invariant]
    spec fn text_matches(self) -> bool {
        self.line@ == line_text(self.received@)
    }

    /// The bytes taken into this line so far.
    pub closed spec fn received(self) -> Seq<u8> {
        self.received@
    }

    /// A line with nothing received yet.
    pub fn new() -> (res: LineReader)
        ensures
            res.received() == Seq::<u8>::empty(),
    {
        LineReader { line: String::new(), received: Ghost(Seq::empty()) }
    }

    /// Takes one more byte into the line.
    pub fn take(self, b: u8) -> (res: LineReader)
        ensures
            res.received() == self.received().push(b),
    {
        proof {
            use_type_invariant(&self);
        }
        let LineReader { mut line, received } = self;
        if b != 13 {
            push_char(&mut line, b as char);
        }
        let ghost now = received@.push(b);
        assert(now.drop_last() =~= received@);
        LineReader { line, received: Ghost(now) }
    }

    /// The text of the line received so far.
    pub fn finish(self) -> (res: String)
        ensures
            res@ == line_text(self.received()),
    {
        proof {
            use_type_invariant(&self);
        }
        self.line
    }
}

/// The text of bytes received one after the other is the text of the first
/// part followed by the text of the second.
pub proof fn lemma_line_text_append(a: Seq<u8>, b: Seq<u8>)
    ensures
        line_text(a + b) == line_text(a) + line_text(b),
    decreases b.len(),
{
    if b.len() == 0 {
        assert(a + b =~= a);
        assert(line_text(b) =~= Seq::<char>::empty());
        assert(line_text(a) + line_text(b) =~= line_text(a));
    } else {
        lemma_line_text_append(a, b.drop_last());
        assert((a + b).drop_last() =~= a + b.drop_last());
        assert((a + b).last() == b.last());
        if b.last() == 13 {
        } else {
            assert(line_text(a) + line_text(b.drop_last()).push(b.last() as char) =~= (line_text(a)
                + line_text(b.drop_last())).push(b.last() as char));
        }
    }
}

/// A single byte contributes its own character to the line, except a
/// carriage return, which contributes nothing.
pub proof fn lemma_line_text_single(b: u8)
    ensures
        line_text(seq![b]) == (if b == 13 {
            Seq::<char>::empty()
        } else {
            seq![b as char]
        }),
{
    assert(seq![b].drop_last() =~= Seq::<u8>::empty());
    assert(line_text(Seq::<u8>::empty()) =~= Seq::<char>::empty());
    if b != 13 {
        assert(Seq::<char>::empty().push(b as char) =~= seq![b as char]);
    }
}

} // verus!
