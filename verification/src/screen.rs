//! Decisions of the interface that do not depend on how it draws.

use crate::board::{Board, BELGIAN_DAISY};
use vstd::prelude::*;

verus! {

/// Whether the side to move may pick marbles: a human plays it and the
/// game still runs.
pub open spec fn human_acts(black_to_move: bool, black_ai: bool, white_ai: bool, ended: bool) -> bool {
    (if black_to_move {
        !black_ai
    } else {
        !white_ai
    }) && !ended
}

/// Whether the side to move may pick marbles.
pub fn human_may_act(black_to_move: bool, black_ai: bool, white_ai: bool, ended: bool) -> (r: bool)
    ensures
        r == human_acts(black_to_move, black_ai, white_ai, ended),
{
    let human_to_move = if black_to_move {
        !black_ai
    } else {
        !white_ai
    };
    human_to_move && !ended
}

/// The index before `selected` among `len` positions; from the first it
/// goes round to the last.
pub open spec fn index_before(len: int, selected: int) -> int {
    if selected == 0 {
        len - 1
    } else {
        selected - 1
    }
}

/// The index after `selected` among `len` positions; from the last it goes
/// round to the first.
pub open spec fn index_after(len: int, selected: int) -> int {
    if selected + 1 == len {
        0
    } else {
        selected + 1
    }
}

/// The starting positions on offer, one of them selected. There is always
/// at least one.
pub struct StartingPositions {
    boards: Vec<Board>,
    selected: usize,
}

impl StartingPositions {
    /// The positions on offer, in order.
    pub closed spec fn boards(self) -> Seq<Board> {
        self.boards@
    }

    /// The index of the selected position.
    pub closed spec fn selected(self) -> int {
        self.selected as int
    }

    #[verifier::type_invariant]
    spec fn inv(self) -> bool {
        self.selected < self.boards.len()
    }

    /// Offers `boards` with the first of them selected. An empty offer is
    /// replaced by the usual starting position.
    pub fn new(boards: Vec<Board>) -> (s: StartingPositions)
        ensures
            s.boards() == (if boards@.len() == 0 {
                seq![BELGIAN_DAISY]
            } else {
                boards@
            }),
            s.selected() == 0,
            0 <= s.selected() < s.boards().len(),
    {
        let mut boards = boards;
        if boards.len() < 1 {
            boards.push(BELGIAN_DAISY);
        }
        StartingPositions { boards, selected: 0 }
    }

    /// How many positions are on offer.
    pub fn len(&self) -> (n: usize)
        ensures
            n == self.boards().len(),
            n >= 1,
            0 <= self.selected() < n,
    {
        proof {
            use_type_invariant(self);
        }
        self.boards.len()
    }

    /// The index of the selected position.
    pub fn selected_index(&self) -> (i: usize)
        ensures
            i == self.selected(),
            0 <= self.selected() < self.boards().len(),
    {
        proof {
            use_type_invariant(self);
        }
        self.selected
    }

    /// The selected position.
    pub fn current(&self) -> (b: Board)
        ensures
            0 <= self.selected() < self.boards().len(),
            b == self.boards()[self.selected()],
    {
        proof {
            use_type_invariant(self);
        }
        self.boards[self.selected]
    }

    /// Selects the position before the selected one; from the first it
    /// goes round to the last.
    pub fn previous(&mut self)
        ensures
            final(self).boards() == old(self).boards(),
            final(self).selected() == index_before(
                old(self).boards().len() as int,
                old(self).selected(),
            ),
            0 <= final(self).selected() < final(self).boards().len(),
    {
        proof {
            use_type_invariant(&*self);
        }
        if self.selected == 0 {
            self.selected = self.boards.len() - 1;
        } else {
            self.selected = self.selected - 1;
        }
    }

    /// Selects the position after the selected one; from the last it goes
    /// round to the first.
    pub fn next(&mut self)
        ensures
            final(self).boards() == old(self).boards(),
            final(self).selected() == index_after(
                old(self).boards().len() as int,
                old(self).selected(),
            ),
            0 <= final(self).selected() < final(self).boards().len(),
    {
        proof {
            use_type_invariant(&*self);
        }
        if self.selected + 1 == self.boards.len() {
            self.selected = 0;
        } else {
            self.selected = self.selected + 1;
        }
    }
}

/// Going on to the next position and back again, or back and on again,
/// ends at the position one started from, and neither ever leaves the
/// offer.
pub proof fn next_undoes_previous(len: int, selected: int)
    requires
        0 <= selected < len,
    ensures
        index_after(len, index_before(len, selected)) == selected,
        index_before(len, index_after(len, selected)) == selected,
        0 <= index_before(len, selected) < len,
        0 <= index_after(len, selected) < len,
{
}

} // verus!
