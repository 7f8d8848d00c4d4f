//! Decisions of timed reads on byte-stream transports. The caller performs
//! each read against its deadline and reports what happened.
use vstd::prelude::*;

use crate::error::Error;

verus! {

/// Result of a read of exactly `wanted` bytes, given what the stream handed
/// over: `None` when the deadline passed first. A read that timed out hands
/// back no bytes at all.
pub fn finish_exact_read(wanted: usize, got: Option<Vec<u8>>) -> (r: Result<Vec<u8>, Error>)
    ensures
        got is None ==> (r matches Err(Error::Timeout(_))),
        got is Some && got->Some_0@.len() == wanted ==> (r matches Ok(v) && v@ == got->Some_0@),
        got is Some && got->Some_0@.len() != wanted ==> (r matches Err(Error::IoError(_))),
{
    match got {
        None => Err(Error::timeout("Timed out reading bytes")),
        Some(v) => if v.len() == wanted {
            Ok(v)
        } else {
            Err(Error::IoError("Stream ended early".to_owned()))
        },
    }
}

/// Whether a read up to a terminator is complete after receiving `bytes`.
pub open spec fn until_complete(terminator: u8, bytes: Seq<u8>) -> bool {
    bytes.len() > 0 && bytes.last() == terminator
}

/// A read of bytes up to and including a terminator.
pub struct UntilReader {
    pub terminator: u8,
    /// Bytes received so far
    pub data: Vec<u8>,
    /// Whether the terminator has arrived
    pub done: bool,
}

impl UntilReader {
    /// A read that has received nothing.
    pub fn new(terminator: u8) -> (r: Self)
        ensures
            r.terminator == terminator,
            r.data@ == Seq::<u8>::empty(),
            !r.done,
    {
        UntilReader { terminator, data: Vec::new(), done: false }
    }

    /// Takes one received byte; the read is complete when it is the
    /// terminator.
    pub fn on_byte(&mut self, b: u8)
        ensures
            final(self).terminator == old(self).terminator,
            final(self).data@ == old(self).data@.push(b),
            final(self).done == until_complete(old(self).terminator, final(self).data@),
    {
        self.data.push(b);
        self.done = b == self.terminator;
    }

    /// Ends a read whose deadline passed: a timeout, and the bytes received
    /// so far are dropped.
    pub fn timed_out(self) -> (r: Error)
        ensures
            r is Timeout,
    {
        Error::timeout("Timed out waiting for terminator")
    }
}

/// On a stream where the terminator never arrives, no prefix completes the
/// read, so only its deadline can end it, with a timeout.
pub proof fn lemma_until_needs_terminator(terminator: u8, bytes: Seq<u8>)
    requires
        forall|i: int| 0 <= i < bytes.len() ==> bytes[i] != terminator,
    ensures
        forall|j: int| 0 <= j <= bytes.len() ==> !until_complete(terminator, #[trigger] bytes.take(j)),
{
    assert forall|j: int| 0 <= j <= bytes.len() implies !until_complete(
        terminator,
        #[trigger] bytes.take(j),
    ) by {
        if j > 0 {
            assert(bytes.take(j).last() == bytes[j - 1]);
        }
    }
}

} // verus!
