//! The byte-stream gate for incoming system-exclusive data. The host hands
//! the core one integer at a time; the core buffers from a start byte to the
//! end byte and then hands the complete message back to the caller, which
//! owns the decoding. Any byte outside a message is rejected.

use vstd::prelude::*;

verus! {

/// The start byte of a system-exclusive message.
pub const SYSEX_START: u8 = 0xF0;

/// The end byte of a system-exclusive message.
pub const SYSEX_END: u8 = 0xF7;

/// The buffering state between two bytes of the stream.
pub struct SysexInBuffer {
    pub buffering: bool,
    pub buf: Vec<u8>,
}

/// What feeding one byte produced.
#[derive(Debug)]
pub enum FeedOutcome {
    /// The byte was buffered; the message is not complete yet.
    Buffered,
    /// The end byte arrived: the returned bytes are one whole message, from
    /// its start byte to its end byte, and the buffer is empty again.
    Complete(Vec<u8>),
    /// The byte arrived outside a message and was rejected.
    Rejected,
}

impl SysexInBuffer {
    /// An empty gate, not buffering.
    pub fn new() -> (r: SysexInBuffer)
        ensures
            !r.buffering,
            r.buf@ =~= Seq::<u8>::empty(),
    {
        SysexInBuffer { buffering: false, buf: Vec::new() }
    }

    /// Feeds one byte of the stream. A start byte opens a message; while a
    /// message is open every byte is buffered; the end byte closes and
    /// returns it; any other byte outside a message is rejected untouched.
    pub fn feed(&mut self, byte: u8) -> (r: FeedOutcome)
        ensures
            ({
                let opened = old(self).buffering || byte == SYSEX_START;
                &&& !opened ==> (r is Rejected && final(self).buffering == old(self).buffering
                    && final(self).buf@ == old(self).buf@)
                &&& (opened && byte != SYSEX_END) ==> (r is Buffered && final(self).buffering
                    && final(self).buf@ == old(self).buf@.push(byte))
                &&& (opened && byte == SYSEX_END) ==> (!final(self).buffering && final(self).buf@
                    =~= Seq::<u8>::empty() && (r matches FeedOutcome::Complete(m) && m@ == old(
                    self,
                ).buf@.push(byte)))
            }),
    {
        if byte == SYSEX_START || self.buffering {
            self.buffering = true;
            self.buf.push(byte);
            if byte == SYSEX_END {
                self.buffering = false;
                let mut done: Vec<u8> = Vec::new();
                core::mem::swap(&mut done, &mut self.buf);
                FeedOutcome::Complete(done)
            } else {
                FeedOutcome::Buffered
            }
        } else {
            FeedOutcome::Rejected
        }
    }
}

} // verus!
