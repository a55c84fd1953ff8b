//! What the coordinator's side keeps about one engine.
//!
//! A search engine must not be asked for a move once it has been stopped,
//! must put up with being told about a move after that, and must put up
//! with being stopped at any time, any number of times. The guard keeps
//! the little state that this takes, so that the engine itself is only
//! reached when it may be.

use crate::session::SessionError;
use vstd::prelude::*;

verus! {

/// The guard of one engine as a mathematical value.
pub struct GuardState {
    /// Whether the engine was ever asked for a move.
    pub searched: bool,
    /// Whether the engine was asked to stop.
    pub stopped: bool,
}

impl GuardState {
    /// The state after a request to stop.
    pub open spec fn cancelled(self) -> GuardState {
        GuardState { stopped: true, ..self }
    }

    /// Whether a request to stop in this state has to reach the engine:
    /// only the first one does.
    pub open spec fn reaches_engine(self) -> bool {
        !self.stopped
    }

    /// The state after `n` requests to stop in a row.
    pub open spec fn cancelled_times(self, n: nat) -> GuardState
        decreases n,
    {
        if n == 0 {
            self
        } else {
            self.cancelled_times((n - 1) as nat).cancelled()
        }
    }

    /// How many of `n` requests to stop in a row reach the engine.
    pub open spec fn stops_reaching_engine(self, n: nat) -> nat
        decreases n,
    {
        if n == 0 {
            0
        } else {
            self.stops_reaching_engine((n - 1) as nat) + (if self.cancelled_times(
                (n - 1) as nat,
            ).reaches_engine() {
                1nat
            } else {
                0nat
            })
        }
    }
}

/// The guard of one engine.
pub struct EngineGuard {
    searched: bool,
    stopped: bool,
}

impl View for EngineGuard {
    type V = GuardState;

    closed spec fn view(&self) -> GuardState {
        GuardState { searched: self.searched, stopped: self.stopped }
    }
}

impl EngineGuard {
    /// The guard of an engine that was neither asked for a move nor stopped.
    pub fn new() -> (g: EngineGuard)
        ensures
            g@ == (GuardState { searched: false, stopped: false }),
    {
        EngineGuard { searched: false, stopped: false }
    }

    /// Whether the engine was asked to stop.
    pub fn is_stopped(&self) -> (r: bool)
        ensures
            r == self@.stopped,
    {
        self.stopped
    }

    /// Whether the engine was ever asked for a move.
    pub fn has_searched(&self) -> (r: bool)
        ensures
            r == self@.searched,
    {
        self.searched
    }

    /// Decides whether the engine may be asked for a move. A stopped
    /// engine may not: the request is an engine failure and the guard
    /// stays as it is. Otherwise the search is noted.
    pub fn admit_search(&mut self) -> (r: Result<(), SessionError>)
        ensures
            old(self)@.stopped <==> r == Err::<(), SessionError>(SessionError::EngineFailure),
            !old(self)@.stopped <==> r is Ok,
            r is Err ==> final(self)@ == old(self)@,
            r is Ok ==> final(self)@ == (GuardState { searched: true, ..old(self)@ }),
    {
        if self.stopped {
            Err(SessionError::EngineFailure)
        } else {
            self.searched = true;
            Ok(())
        }
    }

    /// Whether a move the engine did not choose is to be passed on to it.
    /// For a stopped engine it is dropped, which is always safe.
    pub fn admit_observe(&self) -> (r: bool)
        ensures
            r == !self@.stopped,
    {
        !self.stopped
    }

    /// Notes a request to stop and says whether it has to reach the
    /// engine. It may be made in every state, whether or not the engine
    /// ever searched; only the first one reaches the engine.
    pub fn cancel(&mut self) -> (r: bool)
        ensures
            final(self)@ == old(self)@.cancelled(),
            r == old(self)@.reaches_engine(),
    {
        let first = !self.stopped;
        self.stopped = true;
        first
    }
}

/// Stopping twice is the same as stopping once, and the second request no
/// longer reaches the engine.
pub proof fn cancel_is_idempotent(g: GuardState)
    ensures
        g.cancelled().cancelled() == g.cancelled(),
        !g.cancelled().reaches_engine(),
{
}

/// Any number of requests to stop is safe, whether or not the engine ever
/// searched: none leaves the guard as it is, one or more leave it stopped
/// with its search record untouched, and of all of them at most one
/// reaches the engine, namely the first if the engine still ran.
pub proof fn cancel_any_number_of_times(g: GuardState, n: nat)
    ensures
        n == 0 ==> g.cancelled_times(n) == g,
        n > 0 ==> g.cancelled_times(n) == g.cancelled(),
        g.cancelled_times(n).searched == g.searched,
        g.stops_reaching_engine(n) == (if n > 0 && !g.stopped {
            1nat
        } else {
            0nat
        }),
    decreases n,
{
    if n > 0 {
        cancel_any_number_of_times(g, (n - 1) as nat);
    }
}

} // verus!
