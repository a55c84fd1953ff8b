//! The words the interface shows.

use vstd::prelude::*;

verus! {

/// How the game stands, as far as the status line cares.
#[derive(Clone, Copy, Debug, PartialEq, Eq, Structural)]
pub enum Verdict {
    BlackWon,
    Draw,
    WhiteWon,
    BlackToMove,
    WhiteToMove,
}

impl Verdict {
    /// Reads a verdict off the game's result code: -1 is black's win, 0 a
    /// draw, 1 white's win, and any other code a game that still runs, in
    /// which the side to move matters.
    pub open spec fn of(result: i8, black_to_move: bool) -> Verdict {
        if result == -1 {
            Verdict::BlackWon
        } else if result == 0 {
            Verdict::Draw
        } else if result == 1 {
            Verdict::WhiteWon
        } else if black_to_move {
            Verdict::BlackToMove
        } else {
            Verdict::WhiteToMove
        }
    }

    /// The status line for this verdict, given the two players' names.
    pub open spec fn line(self, black_name: Seq<char>, white_name: Seq<char>) -> Seq<char> {
        match self {
            Verdict::BlackWon => "'"@ + black_name + "' won the game!"@,
            Verdict::Draw => "The game ended in a draw"@,
            Verdict::WhiteWon => "'"@ + white_name + "' won the game!"@,
            Verdict::BlackToMove => "'"@ + black_name + "' has to make a move"@,
            Verdict::WhiteToMove => "'"@ + white_name + "' has to make a move"@,
        }
    }

    /// Reads a verdict off the game's result code and the side to move.
    pub fn from_result(result: i8, black_to_move: bool) -> (v: Verdict)
        ensures
            v == Verdict::of(result, black_to_move),
    {
        if result == -1 {
            Verdict::BlackWon
        } else if result == 0 {
            Verdict::Draw
        } else if result == 1 {
            Verdict::WhiteWon
        } else if black_to_move {
            Verdict::BlackToMove
        } else {
            Verdict::WhiteToMove
        }
    }
}

/// The texts of the interface.
pub struct AbaloneLabels {
    pub game_message: String,
    pub white_name: String,
    pub black_name: String,
}

impl AbaloneLabels {
    /// Writes the status line for `verdict` into the message.
    pub fn announce(&mut self, verdict: Verdict)
        ensures
            final(self).game_message@ == verdict.line(old(self).black_name@, old(self).white_name@),
            final(self).black_name == old(self).black_name,
            final(self).white_name == old(self).white_name,
    {
        let mut line = String::new();
        match verdict {
            Verdict::BlackWon => {
                line.append("'");
                line.append(self.black_name.as_str());
                line.append("' won the game!");
            },
            Verdict::Draw => {
                line.append("The game ended in a draw");
            },
            Verdict::WhiteWon => {
                line.append("'");
                line.append(self.white_name.as_str());
                line.append("' won the game!");
            },
            Verdict::BlackToMove => {
                line.append("'");
                line.append(self.black_name.as_str());
                line.append("' has to make a move");
            },
            Verdict::WhiteToMove => {
                line.append("'");
                line.append(self.white_name.as_str());
                line.append("' has to make a move");
            },
        }
        self.game_message = line;
    }

    /// Writes the prompt of the screen on which a starting position is
    /// picked.
    pub fn prompt_for_start(&mut self)
        ensures
            final(self).game_message@ == "Choose starting position"@,
            final(self).black_name == old(self).black_name,
            final(self).white_name == old(self).white_name,
    {
        self.game_message = "Choose starting position".to_string();
    }
}

impl Default for AbaloneLabels {
    fn default() -> (l: AbaloneLabels)
        ensures
            l.game_message@ == ""@,
            l.black_name@ == "Blue Player"@,
            l.white_name@ == "Yellow Player"@,
    {
        AbaloneLabels {
            game_message: "".to_string(),
            black_name: "Blue Player".to_string(),
            white_name: "Yellow Player".to_string(),
        }
    }
}

} // verus!
