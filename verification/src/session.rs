//! Values shared by every part of a session.

use vstd::prelude::*;

verus! {

/// Which of the two players is to move. `First` opens the game.
#[derive(Clone, Copy, Debug, PartialEq, Eq, Structural)]
pub enum TurnColor {
    First,
    Second,
}

impl TurnColor {
    /// The colour that is not `self`.
    pub open spec fn flipped(self) -> TurnColor {
        match self {
            TurnColor::First => TurnColor::Second,
            TurnColor::Second => TurnColor::First,
        }
    }

    /// `self` after `n` alternations.
    pub open spec fn flipped_times(self, n: nat) -> TurnColor {
        if n % 2 == 0 {
            self
        } else {
            self.flipped()
        }
    }

    /// The colour that is not `self`.
    pub fn other(self) -> (r: TurnColor)
        ensures
            r == self.flipped(),
            r != self,
    {
        match self {
            TurnColor::First => TurnColor::Second,
            TurnColor::Second => TurnColor::First,
        }
    }
}

/// Why a session stopped without the game having ended. Each of them is
/// fatal to the session and none is retried.
#[derive(Clone, Copy, Debug, PartialEq, Eq, Structural)]
pub enum SessionError {
    /// The peer dropped its end of a queue.
    ChannelDisconnected,
    /// An engine failed while choosing a move or taking one in.
    EngineFailure,
    /// A session was started before the previous one was fully shut down.
    ShutdownRace,
}

impl SessionError {
    /// A sentence for the person at the interface.
    pub fn message(&self) -> (s: String)
        ensures
            s@ == (match *self {
                SessionError::ChannelDisconnected => "the other side of the session went away"@,
                SessionError::EngineFailure => "an engine failed; the session is over"@,
                SessionError::ShutdownRace => "the previous session has not shut down yet"@,
            }),
    {
        match self {
            SessionError::ChannelDisconnected => "the other side of the session went away".to_string(),
            SessionError::EngineFailure => "an engine failed; the session is over".to_string(),
            SessionError::ShutdownRace => "the previous session has not shut down yet".to_string(),
        }
    }
}

} // verus!
