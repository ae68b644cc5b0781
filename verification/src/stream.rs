//! The byte-stream adapter's polling discipline.
//!
//! A read from the transport that completes without delivering a byte is
//! not a failure: it is reported as a distinct would-block indication, so
//! an outer retry loop can spin on it while hard errors still surface.

use vstd::prelude::*;

verus! {

/// Result of polling the transport for one byte.
#[derive(Clone, Copy, Debug, PartialEq, Eq, Structural)]
pub enum ReadPoll {
    /// One byte arrived.
    Ready(u8),
    /// The transport had nothing to deliver yet; poll again.
    WouldBlock,
}

/// Classify a completed transport read: `count` bytes were placed in the
/// buffer, whose first byte is `byte`. No byte means would-block, never
/// an error; a byte is handed on unchanged.
pub fn classify_read(count: usize, byte: u8) -> (poll: ReadPoll)
    ensures
        poll is WouldBlock <==> count == 0,
        count != 0 ==> poll == ReadPoll::Ready(byte),
{
    if count == 0 {
        ReadPoll::WouldBlock
    } else {
        ReadPoll::Ready(byte)
    }
}

} // verus!
