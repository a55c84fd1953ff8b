//! Starting and shutting down sessions, one at a time.
//!
//! At most one coordinator is alive per owner. A new session may start only
//! after the previous coordinator has been told to shut down and has been
//! waited for.

use crate::board::{Board, EMPTY_BOARD};
use crate::session::SessionError;
use vstd::prelude::*;

verus! {

/// Where the owner of sessions stands.
#[derive(Clone, Copy, Debug, PartialEq, Eq, Structural)]
pub enum Stage {
    /// No coordinator is alive.
    Idle,
    /// A coordinator runs.
    Running,
    /// The coordinator was told to shut down and is being waited for.
    Joining,
}

impl Stage {
    /// How many coordinators are alive in this stage.
    pub open spec fn alive(self) -> nat {
        match self {
            Stage::Idle => 0,
            _ => 1,
        }
    }

    /// The stage after an attempt to start a session.
    pub open spec fn started(self) -> Stage {
        match self {
            Stage::Idle => Stage::Running,
            other => other,
        }
    }

    /// The stage after a request to shut down.
    pub open spec fn shut_down(self) -> Stage {
        match self {
            Stage::Running => Stage::Joining,
            other => other,
        }
    }

    /// The stage after the coordinator has been waited for.
    pub open spec fn joined(self) -> Stage {
        match self {
            Stage::Joining => Stage::Idle,
            other => other,
        }
    }
}

/// The message that forces a coordinator to shut down: a placeholder
/// position together with the flag that ends the session.
pub open spec fn shutdown_message() -> (Board, bool) {
    (EMPTY_BOARD, true)
}

/// Keeps track of whether a coordinator is alive.
pub struct Lifecycle {
    stage: Stage,
}

impl View for Lifecycle {
    type V = Stage;

    closed spec fn view(&self) -> Stage {
        self.stage
    }
}

impl Lifecycle {
    /// An owner without a session.
    pub fn new() -> (l: Lifecycle)
        ensures
            l@ == Stage::Idle,
    {
        Lifecycle { stage: Stage::Idle }
    }

    pub fn stage(&self) -> (s: Stage)
        ensures
            s == self@,
    {
        self.stage
    }

    /// Whether a coordinator is alive.
    pub fn is_alive(&self) -> (r: bool)
        ensures
            r == (self@.alive() == 1),
    {
        match self.stage {
            Stage::Idle => false,
            _ => true,
        }
    }

    /// Claims the right to start a coordinator. It is granted only while
    /// none is alive; otherwise the attempt is a shutdown race and nothing
    /// changes.
    pub fn start(&mut self) -> (r: Result<(), SessionError>)
        ensures
            old(self)@ is Idle <==> r is Ok,
            !(old(self)@ is Idle) <==> r == Err::<(), SessionError>(SessionError::ShutdownRace),
            final(self)@ == old(self)@.started(),
    {
        match self.stage {
            Stage::Idle => {
                self.stage = Stage::Running;
                Ok(())
            },
            _ => Err(SessionError::ShutdownRace),
        }
    }

    /// Begins the shutdown of the running session and returns the message
    /// to send to its coordinator, which must then be waited for. Where no
    /// session runs, or the shutdown has begun already, there is nothing
    /// to send and nothing changes.
    pub fn begin_shutdown(&mut self) -> (r: Option<(Board, bool)>)
        ensures
            old(self)@ is Running <==> r is Some,
            r is Some ==> r == Some(shutdown_message()),
            final(self)@ == old(self)@.shut_down(),
    {
        match self.stage {
            Stage::Running => {
                self.stage = Stage::Joining;
                Some((EMPTY_BOARD, true))
            },
            _ => None,
        }
    }

    /// Notes that the coordinator has been waited for and is gone. Says
    /// whether there was one to wait for.
    pub fn finish_shutdown(&mut self) -> (r: bool)
        ensures
            r == (old(self)@ is Joining),
            final(self)@ == old(self)@.joined(),
    {
        match self.stage {
            Stage::Joining => {
                self.stage = Stage::Idle;
                true
            },
            _ => false,
        }
    }
}

/// Shutting down is idempotent: a second request changes nothing, and a
/// request without a running session changes nothing either.
pub proof fn shutdown_is_idempotent(s: Stage)
    ensures
        s.shut_down().shut_down() == s.shut_down(),
        s is Idle ==> s.shut_down() == s,
        s.shut_down().joined().shut_down().joined() == s.shut_down().joined(),
{
}

/// No operation ever brings a second coordinator to life, and a start is
/// granted again only after the coordinator that ran has been told to shut
/// down and has been waited for.
pub proof fn one_coordinator_at_a_time(s: Stage)
    ensures
        s.alive() <= 1,
        s.started().alive() == 1,
        s.alive() == 1 ==> s.started() == s,
        s is Running ==> !(s.joined() is Idle),
        s is Running ==> s.shut_down().joined() is Idle,
{
}

} // verus!
