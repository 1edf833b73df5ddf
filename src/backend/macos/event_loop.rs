//! The decisions of a device's event loop.
//!
//! The loop runs the OS run loop in bounded slices; after each slice it checks whether
//! the device that owns it has begun destruction, and exits if so.

use vstd::prelude::*;

verus! {

/// How long one slice of the run loop lasts, in milliseconds.
pub const SLICE_MILLIS: u64 = 1000;

/// What the event loop does after a slice.
#[derive(Debug, Clone, Copy, PartialEq, Eq, Structural)]
pub enum LoopAction {
    /// Run another slice: callbacks the OS delivers in it are invoked.
    RunSlice,
    /// Stop: the owning device is being destroyed.
    Exit,
}

/// Decides the next step of the event loop from the termination flag it just read.
pub fn next_loop_action(termination_requested: bool) -> (r: LoopAction)
    ensures
        termination_requested ==> r == LoopAction::Exit,
        !termination_requested ==> r == LoopAction::RunSlice,
{
    if termination_requested {
        LoopAction::Exit
    } else {
        LoopAction::RunSlice
    }
}

/// The number of slices the loop still runs, given the termination flag it reads after
/// each slice: it stops at the first slice after which the flag is set.
pub open spec fn slices_run(flags: Seq<bool>) -> nat
    decreases flags.len(),
{
    if flags.len() == 0 {
        0
    } else if flags[0] {
        1
    } else {
        1 + slices_run(flags.drop_first())
    }
}

/// Once termination is signalled, the loop runs at most one more slice (the one in
/// progress when the flag was set) before it exits.
pub proof fn lemma_exits_within_one_slice(flags: Seq<bool>, signalled: int)
    requires
        0 <= signalled < flags.len(),
        forall|i: int| signalled <= i < flags.len() ==> #[trigger] flags[i],
    ensures
        slices_run(flags) <= signalled + 1,
    decreases signalled,
{
    if signalled > 0 && !flags[0] {
        lemma_exits_within_one_slice(flags.drop_first(), signalled - 1);
    }
}

} // verus!
