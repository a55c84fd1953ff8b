//! Who controls a colour.

use vstd::prelude::*;

verus! {

/// How one colour is played: by a human at the interface, or by a search
/// engine with the given budget. Decided once when a session is set up.
#[derive(Clone, Copy, Debug, PartialEq, Eq, Structural)]
pub enum PlayerSetting {
    Human,
    MagisterLudiAI { mcts_num: usize, mcts_parallel: usize, mcts_minimum: usize, mcts_depth: usize },
}

impl PlayerSetting {
    /// Whether an engine plays this colour.
    pub open spec fn has_engine(self) -> bool {
        self is MagisterLudiAI
    }

    /// The budget an engine gets when nothing else was chosen: 40 leaves
    /// per search on 20 threads, every child visited at least 7 times,
    /// simulations played to the end of the game.
    pub open spec fn spec_standard_engine() -> PlayerSetting {
        PlayerSetting::MagisterLudiAI {
            mcts_num: 40,
            mcts_parallel: 20,
            mcts_minimum: 7,
            mcts_depth: 0,
        }
    }

    /// The setting that a plain on/off switch stands for.
    pub open spec fn spec_from_switch(engine: bool) -> PlayerSetting {
        if engine {
            Self::spec_standard_engine()
        } else {
            PlayerSetting::Human
        }
    }

    /// Whether an engine plays this colour.
    pub fn is_engine(&self) -> (r: bool)
        ensures
            r == self.has_engine(),
    {
        match self {
            PlayerSetting::Human => false,
            PlayerSetting::MagisterLudiAI { .. } => true,
        }
    }

    /// Whether a human plays this colour.
    pub fn is_human(&self) -> (r: bool)
        ensures
            r == !self.has_engine(),
    {
        !self.is_engine()
    }

    /// The engine setting with the standard budget.
    pub fn standard_engine() -> (r: PlayerSetting)
        ensures
            r == Self::spec_standard_engine(),
    {
        PlayerSetting::MagisterLudiAI { mcts_num: 40, mcts_parallel: 20, mcts_minimum: 7, mcts_depth: 0 }
    }

    /// Turns an on/off switch into a setting: on is the standard engine,
    /// off is a human.
    pub fn from_switch(engine: bool) -> (r: PlayerSetting)
        ensures
            r == Self::spec_from_switch(engine),
            r.has_engine() == engine,
    {
        if engine {
            Self::standard_engine()
        } else {
            PlayerSetting::Human
        }
    }
}

} // verus!
