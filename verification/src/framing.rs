//! Line framing for the transfer wire protocol.
//!
//! Both protocol messages (the offer header and the ack) are single
//! newline-terminated text lines. The reader accumulates bytes one at a
//! time until a newline arrives; a line that exceeds a hard cap without a
//! newline is refused outright, and none of its bytes are ever
//! interpreted. The header cap is 16 KiB, the ack cap 8 KiB.

use vstd::prelude::*;

verus! {

/// Hard cap on the offer header line, in bytes (16 KiB).
pub const HEADER_LINE_CAP: usize = 16384;

/// Hard cap on the ack line, in bytes (8 KiB).
pub const ACK_LINE_CAP: usize = 8192;

/// The line feed byte that terminates a protocol line.
pub const LINE_FEED: u8 = 10;

/// What the accumulator concluded after one more byte.
pub enum LineStep {
    /// The newline arrived: the accumulated bytes are the complete line.
    Complete,
    /// The byte was stored; more bytes are needed.
    More,
    /// The cap was exceeded with no newline: the line is refused and must
    /// not be interpreted.
    Overflow,
}

/// Accumulates one newline-terminated line under a byte cap.
pub struct LineAccumulator {
    pub buf: Vec<u8>,
    pub cap: usize,
}

impl LineAccumulator {
    /// An empty accumulator with the given cap.
    pub fn new(cap: usize) -> (r: LineAccumulator)
        ensures
            r.buf@ == Seq::<u8>::empty(),
            r.cap == cap,
    {
        LineAccumulator { buf: Vec::new(), cap }
    }

    /// Feeds one byte. A line feed completes the line (and is not stored);
    /// any other byte is stored, and overflow is reported as soon as the
    /// stored bytes exceed the cap.
    pub fn push_byte(&mut self, b: u8) -> (step: LineStep)
        ensures
            final(self).cap == old(self).cap,
            b == LINE_FEED ==> final(self).buf@ == old(self).buf@ && (step is Complete),
            b != LINE_FEED ==> {
                &&& final(self).buf@ == old(self).buf@ + seq![b]
                &&& old(self).buf@.len() + 1 > old(self).cap ==> (step is Overflow)
                &&& old(self).buf@.len() + 1 <= old(self).cap ==> (step is More)
            },
    {
        if b == LINE_FEED {
            LineStep::Complete
        } else {
            self.buf.push(b);
            if self.buf.len() > self.cap {
                LineStep::Overflow
            } else {
                LineStep::More
            }
        }
    }

    /// The accumulated line, consumed.
    pub fn into_line(self) -> (r: Vec<u8>)
        ensures
            r@ == self.buf@,
    {
        self.buf
    }
}

} // verus!
