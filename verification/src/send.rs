//! Planning of the interactive send loop's transmissions.
//!
//! The loop reads one line at a time from an external line source. A
//! sentinel line ends the loop without being transmitted; any other line
//! is transmitted verbatim, byte by byte in order, followed by exactly
//! one terminator byte.

use vstd::prelude::*;

verus! {

/// The byte sequence of the sentinel word `exit`.
pub open spec fn exit_word() -> Seq<u8> {
    seq![101u8, 120u8, 105u8, 116u8]
}

/// The byte sequence of the sentinel word `quit`.
pub open spec fn quit_word() -> Seq<u8> {
    seq![113u8, 117u8, 105u8, 116u8]
}

/// A line that ends the send loop instead of being transmitted.
pub open spec fn is_sentinel(line: Seq<u8>) -> bool {
    line == exit_word() || line == quit_word()
}

/// Whether this line is one of the sentinel words.
pub fn is_sentinel_line(line: &Vec<u8>) -> (sentinel: bool)
    ensures
        sentinel == is_sentinel(line@),
{
    let is_exit = line.len() == 4 && line[0] == 101 && line[1] == 120 && line[2] == 105
        && line[3] == 116;
    let is_quit = line.len() == 4 && line[0] == 113 && line[1] == 117 && line[2] == 105
        && line[3] == 116;
    proof {
        if is_exit {
            assert(line@ =~= exit_word());
        }
        if is_quit {
            assert(line@ =~= quit_word());
        }
    }
    is_exit || is_quit
}

/// Plan what to do with one line of input: `None` for a sentinel line,
/// which ends the loop untransmitted; otherwise the exact bytes to put
/// on the wire, the line in order followed by one terminator byte.
pub fn plan_line(line: &Vec<u8>) -> (plan: Option<Vec<u8>>)
    ensures
        plan is None <==> is_sentinel(line@),
        plan matches Some(wire) ==> wire@ == line@ + seq![10u8],
{
    if is_sentinel_line(line) {
        None
    } else {
        let mut wire: Vec<u8> = Vec::new();
        let mut i: usize = 0;
        while i < line.len()
            invariant
                i <= line.len(),
                wire@ =~= line@.subrange(0, i as int),
            decreases line.len() - i,
        {
            wire.push(line[i]);
            proof {
                assert(wire@ =~= line@.subrange(0, i + 1 as int));
            }
            i = i + 1;
        }
        assert(wire@ =~= line@);
        wire.push(10);
        assert(wire@ =~= line@ + seq![10u8]);
        Some(wire)
    }
}

} // verus!
