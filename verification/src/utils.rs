//! What the session reader hands to the terminal, the decision that the
//! reader takes after each read, and a few helpers.

use crate::performer::Performer;
use vstd::prelude::*;
use vstd::slice::{slice_subrange, slice_to_vec};
use vstd::string::{StrSliceExecFns, StringExecFns};

verus! {

/// The number of bytes that the session reader asks for in one read.
pub const CHUNK_SIZE: usize = 4096;

/// A chunk of bytes that was read from the shell: the buffer, and how many of
/// its bytes count.
#[derive(Clone, Debug)]
pub struct SomethingInFd {
    pub buffer: Vec<u8>,
    pub number_of_elements_in_buffer: usize,
}

/// How a read of the session ended.
#[derive(Clone, Copy, Debug, PartialEq, Eq, Structural)]
pub enum ReadOutcome {
    /// The read filled this many bytes of the buffer.
    Read(usize),
    /// The read failed because the shell has closed its side.
    Closed,
    /// The read failed for another reason.
    Failed,
}

/// What the session reader does after a read.
#[derive(Clone, Debug)]
pub enum ReaderStep {
    /// Hand the chunk to the terminal, then read again.
    Deliver(SomethingInFd),
    /// The shell is gone: end the process.
    Terminate,
    /// Nothing came: read again.
    Continue,
}

/// The chunk that the session reader delivers after a read into `buffer`
/// that ended as `outcome`: the bytes that were read, if any were.
pub open spec fn delivered(buffer: Seq<u8>, outcome: ReadOutcome) -> Option<Seq<u8>> {
    match outcome {
        ReadOutcome::Read(n) => if n > 0 {
            Some(buffer.take(n as int))
        } else {
            None
        },
        _ => None,
    }
}

/// Whether a read that ended as `outcome` ends the session: an empty read
/// or a closed channel.
pub open spec fn ends_session(outcome: ReadOutcome) -> bool {
    outcome == ReadOutcome::Read(0) || outcome == ReadOutcome::Closed
}

/// One read of the session reader: what the buffer holds after it, and how
/// it ended.
pub struct OneRead {
    pub buffer: Seq<u8>,
    pub outcome: ReadOutcome,
}

/// The chunks that the session reader delivers, first to last, when its
/// reads go as `reads` say: it takes the reads in order, delivers the chunk
/// of each read that brought bytes, passes over each that failed and stops
/// at the first that ends the session.
pub open spec fn deliveries(reads: Seq<OneRead>) -> Seq<Seq<u8>>
    decreases reads.len(),
{
    if reads.len() == 0 || ends_session(reads[0].outcome) {
        Seq::empty()
    } else {
        match delivered(reads[0].buffer, reads[0].outcome) {
            Some(chunk) => seq![chunk] + deliveries(reads.drop_first()),
            None => deliveries(reads.drop_first()),
        }
    }
}

/// Decides what the session reader does after a read into `buffer` that
/// ended as `outcome`. Bytes that were read are delivered, exactly those and
/// no more. An empty read or a closed channel ends the process. Any other
/// failure is passed over.
pub fn reader_step(buffer: &[u8], outcome: ReadOutcome) -> (step: ReaderStep)
    requires
        outcome matches ReadOutcome::Read(n) ==> n <= buffer@.len(),
    ensures
        match step {
            ReaderStep::Deliver(event) => {
                &&& delivered(buffer@, outcome) == Some(event.buffer@)
                &&& event.number_of_elements_in_buffer == event.buffer@.len()
            },
            ReaderStep::Terminate => ends_session(outcome),
            ReaderStep::Continue => outcome == ReadOutcome::Failed,
        },
{
    match outcome {
        ReadOutcome::Read(n) => {
            if n > 0 {
                let bytes = slice_to_vec(slice_subrange(buffer, 0, n));
                assert(bytes@ =~= buffer@.take(n as int));
                ReaderStep::Deliver(
                    SomethingInFd { buffer: bytes, number_of_elements_in_buffer: n },
                )
            } else {
                ReaderStep::Terminate
            }
        },
        ReadOutcome::Closed => ReaderStep::Terminate,
        ReadOutcome::Failed => ReaderStep::Continue,
    }
}

/// The path that `path` stands for when a leading `~` means the home
/// directory `home`.
pub open spec fn tilde_expanded(path: Seq<char>, home: Seq<char>) -> Seq<char> {
    if path.len() > 0 && path[0] == '~' {
        home + path.subrange(1, path.len() as int)
    } else {
        path
    }
}

/// Replaces a leading `~` of `path` by `home`; a path without one stays as
/// it is.
pub fn expand_tilde(path: &str, home: &str) -> (expanded: String)
    ensures
        expanded@ == tilde_expanded(path@, home@),
{
    let length = path.unicode_len();
    if length > 0 && path.get_char(0) == '~' {
        let mut expanded = String::from_str(home);
        expanded.append(path.substring_char(1, length));
        expanded
    } else {
        String::from_str(path)
    }
}

/// Moves the visual cursor one character width right.
pub fn move_cursor_right(performer_mut: &mut Performer)
    requires
        old(performer_mut)@.can_move_right(1),
    ensures
        final(performer_mut)@ == old(performer_mut)@.cursor_right(1),
{
    performer_mut.cursor_right(1);
}

/// Moves the visual cursor one character width left.
pub fn move_cursor_left(performer_mut: &mut Performer)
    requires
        old(performer_mut)@.can_move_left(1),
    ensures
        final(performer_mut)@ == old(performer_mut)@.cursor_left(1),
{
    performer_mut.cursor_left(1);
}

} // verus!
