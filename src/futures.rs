//! The single-completion future that bridges callback completion and polling.
//!
//! The state shared between a [`UsbFuture`] and the callback that completes it
//! sits behind a lock whose invariant is that a pending future holds no result.

use std::sync::Arc;
use std::task::Waker;

use vstd::prelude::*;
use vstd::rwlock::{RwLock, RwLockPredicate};

use crate::error::UsbResult;

verus! {

#[verifier::external_type_specification]
#[verifier::external_body]
pub struct ExWaker(Waker);

/// Relies on `Waker::wake`: notifies the executor of the task that registered the waker.
#[verifier::external_body]
fn wake(waker: Waker) {
    waker.wake()
}

/// What a poll of the future found.
pub enum PollState {
    /// The transfer has not completed; the poller's waker was stored.
    Pending,
    /// The transfer completed with this result, which is handed out now.
    Ready(UsbResult<usize>),
    /// The result was already handed out by an earlier poll.
    Consumed,
}

/// Shared state between a future and the backend completing its transfer.
pub struct UsbFutureState {
    /// Whether the transfer is still outstanding.
    pending: bool,
    /// The result of the transfer, once it completed and until a poll takes it.
    result: Option<UsbResult<usize>>,
    /// The waker of the last poll that found the transfer pending.
    waker: Option<Waker>,
}

impl UsbFutureState {
    /// Whether the transfer is still outstanding.
    pub closed spec fn is_pending(&self) -> bool {
        self.pending
    }

    /// The result held for the next poll.
    pub closed spec fn stored_result(&self) -> Option<UsbResult<usize>> {
        self.result
    }

    /// The waker registered by the last pending poll.
    pub closed spec fn registered_waker(&self) -> Option<Waker> {
        self.waker
    }

    /// A pending state holds no result.
    pub open spec fn wf(&self) -> bool {
        self.is_pending() ==> self.stored_result() is None
    }

    /// What a poll of this state reports.
    pub open spec fn poll_outcome(&self) -> PollState {
        if self.is_pending() {
            PollState::Pending
        } else if self.stored_result() is Some {
            PollState::Ready(self.stored_result()->0)
        } else {
            PollState::Consumed
        }
    }

    /// The state after the transfer completes with `result`; the registered waker is taken.
    pub closed spec fn completed_with(&self, result: UsbResult<usize>) -> UsbFutureState {
        UsbFutureState { pending: false, result: Some(result), waker: None }
    }

    /// The state after a poll with `waker`.
    pub closed spec fn polled_with(&self, waker: Waker) -> UsbFutureState {
        if self.pending {
            UsbFutureState { pending: true, result: self.result, waker: Some(waker) }
        } else {
            UsbFutureState { pending: false, result: None, waker: self.waker }
        }
    }

    /// Creates the state of a transfer that has not completed.
    pub fn new() -> (r: UsbFutureState)
        ensures
            r.is_pending(),
            r.stored_result() is None,
            r.registered_waker() is None,
            r.wf(),
    {
        UsbFutureState { pending: true, result: None, waker: None }
    }

    /// Records the outcome of the transfer. Returns the registered waker, which the
    /// caller wakes once it has released the state.
    pub fn complete(&mut self, result: UsbResult<usize>) -> (w: Option<Waker>)
        ensures
            *final(self) == old(self).completed_with(result),
            !final(self).is_pending(),
            final(self).stored_result() == Some(result),
            final(self).registered_waker() is None,
            w == old(self).registered_waker(),
            final(self).wf(),
    {
        self.result = Some(result);
        self.pending = false;
        self.waker.take()
    }

    /// Whether the result was already handed out. Polling such a state is a programming
    /// error, which [`UsbFutureState::poll`] does not admit.
    pub fn is_consumed(&self) -> (r: bool)
        ensures
            r == (self.poll_outcome() == PollState::Consumed),
    {
        !self.pending && self.result.is_none()
    }

    /// Polls the state: a pending state stores `waker`, a completed one hands out its
    /// result, once; a state whose result was already taken may not be polled.
    pub fn poll(&mut self, waker: Waker) -> (r: PollState)
        requires
            old(self).wf(),
            old(self).poll_outcome() != PollState::Consumed,
        ensures
            r == old(self).poll_outcome(),
            *final(self) == old(self).polled_with(waker),
            final(self).is_pending() == old(self).is_pending(),
            final(self).registered_waker() == if old(self).is_pending() {
                Some(waker)
            } else {
                old(self).registered_waker()
            },
            final(self).stored_result() is None,
            final(self).wf(),
            r != PollState::Consumed,
    {
        if self.pending {
            self.waker = Some(waker);
            PollState::Pending
        } else {
            match self.result.take() {
                Some(result) => PollState::Ready(result),
                None => PollState::Consumed,
            }
        }
    }
}

/// The lock invariant of the shared state.
pub struct FutureStateInvariant;

impl RwLockPredicate<UsbFutureState> for FutureStateInvariant {
    open spec fn inv(self, v: UsbFutureState) -> bool {
        v.wf()
    }
}

/// The shared, lock-protected state of a future.
pub type SharedFutureState = Arc<RwLock<UsbFutureState, FutureStateInvariant>>;

/// Completes shared state with `result` and wakes the task that last polled it.
pub fn complete_shared(state: &SharedFutureState, result: UsbResult<usize>) {
    let (mut inner, handle) = state.acquire_write();
    let waker = inner.complete(result);
    handle.release_write(inner);
    if let Some(waker) = waker {
        wake(waker);
    }
}

/// Single-completion future of a USB transfer's result.
pub struct UsbFuture {
    /// The state shared between the future and the backend.
    state: SharedFutureState,
}

impl UsbFuture {
    /// Creates a future waiting on the completion of a transfer.
    pub fn new() -> UsbFuture {
        UsbFuture { state: Arc::new(RwLock::new(UsbFutureState::new(), Ghost(FutureStateInvariant))) }
    }

    /// Returns an owned handle onto the shared state, for the completing side.
    pub fn clone_state(&self) -> SharedFutureState {
        self.state.clone()
    }

    /// Polls the future with the caller's waker. A future whose result was already handed
    /// out is not polled again: it reports `Consumed`, which the caller treats as its own
    /// programming error.
    pub fn poll_with(&self, waker: Waker) -> PollState {
        let (mut inner, handle) = self.state.acquire_write();
        if inner.is_consumed() {
            handle.release_write(inner);
            return PollState::Consumed;
        }
        let r = inner.poll(waker);
        handle.release_write(inner);
        r
    }
}

/// Once completed, a future yields exactly the completion's result on the next poll,
/// and every later poll reports it consumed, never pending.
pub proof fn lemma_completed_future_yields_result(
    state: UsbFutureState,
    result: UsbResult<usize>,
    first: Waker,
    second: Waker,
)
    ensures
        state.completed_with(result).poll_outcome() == PollState::Ready(result),
        state.completed_with(result).polled_with(first).poll_outcome() == PollState::Consumed,
        state.completed_with(result).polled_with(first).polled_with(second).poll_outcome()
            == PollState::Consumed,
        forall|later: UsbFutureState, waker: Waker|
            !later.is_pending() ==> !(#[trigger] later.polled_with(waker)).is_pending()
                && later.poll_outcome() != PollState::Pending,
{
}

/// A poll that finds the transfer pending reports pending and registers its waker; the
/// completion that follows hands exactly that waker back to be woken, and the next poll
/// then yields the result.
pub proof fn lemma_pending_poll_registers_waker(
    state: UsbFutureState,
    waker: Waker,
    result: UsbResult<usize>,
)
    requires
        state.is_pending(),
    ensures
        state.poll_outcome() == PollState::Pending,
        state.polled_with(waker).registered_waker() == Some(waker),
        state.polled_with(waker).is_pending(),
        state.polled_with(waker).completed_with(result).poll_outcome() == PollState::Ready(result),
{
}

} // verus!
