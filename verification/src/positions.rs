//! Where things stand on the screen, in whole steps of the grid.
//!
//! The rules of the layout are kept in integers here; turning them into
//! pixels is left to whoever draws.

use vstd::prelude::*;

verus! {

/// How many fields a row of the hexagon has; rows are counted from 0.
pub open spec fn row_length(row: int) -> int {
    if row <= 4 {
        5 + row
    } else {
        13 - row
    }
}

/// The column with which a row of the hexagon starts in the 11 by 11
/// board; rows are counted from 0.
pub open spec fn column_offset(row: int) -> int {
    if row <= 4 {
        5 - row
    } else {
        1
    }
}

/// A place on the screen grid.
#[derive(Clone, Copy, Debug, PartialEq, Eq, Structural)]
pub struct GridSpot {
    /// How far right of the board's left reference line the centre lies,
    /// in halves of the distance between two neighbouring marbles.
    pub half_steps: i32,
    /// How far below the board's upper reference line the centre lies, in
    /// marble heights.
    pub rows_down: i32,
}

/// Whether a board coordinate has a place on the screen grid: its row is
/// one of the nine rows of the hexagon, and its column is one of the nine
/// that follow the start of that row.
pub open spec fn on_grid(x: usize, y: usize) -> bool {
    &&& 1 <= x <= 9
    &&& column_offset(x - 1) <= y <= column_offset(x - 1) + 8
}

/// The place of a board coordinate on the screen grid. Shorter rows are
/// shifted right by half a step for every field they lack, which gives the
/// hexagon its shape.
pub open spec fn spot_of(x: usize, y: usize) -> GridSpot {
    GridSpot {
        half_steps: (2 * (y - column_offset(x - 1) + 1) - (row_length(x - 1) - 5)) as i32,
        rows_down: x as i32,
    }
}

/// The place of the board coordinate `(x, y)` on the screen grid, or
/// `None` where the coordinate has none.
pub fn grid_spot(x: usize, y: usize) -> (r: Option<GridSpot>)
    ensures
        r is Some <==> on_grid(x, y),
        r is Some ==> r == Some(spot_of(x, y)),
        r matches Some(spot) ==> -2 <= spot.half_steps <= 18 && 1 <= spot.rows_down <= 9,
{
    if x < 1 || x > 9 {
        return None;
    }
    let row: usize = x - 1;
    let offset: usize = if row <= 4 {
        5 - row
    } else {
        1
    };
    let length: usize = if row <= 4 {
        5 + row
    } else {
        13 - row
    };
    if y < offset || y > offset + 8 {
        return None;
    }
    let column: usize = y - offset;
    let doubled: i32 = (2 * (column + 1)) as i32;
    let shift: i32 = (length - 5) as i32;
    Some(GridSpot { half_steps: doubled - shift, rows_down: x as i32 })
}

/// What is drawn at one slot of a side's dead zone.
#[derive(Clone, Copy, Debug, PartialEq, Eq, Structural)]
pub enum SlotMark {
    /// No marble was lost into this slot.
    Free,
    /// A lost marble lies here.
    Dead,
    /// The marble that was lost last lies here; it is highlighted.
    FreshlyDead,
}

/// The mark of slot `index` when `loss` marbles are lost and `old_loss`
/// were lost before the move just played. Slots fill from the first; the
/// first slot filled by this move is highlighted.
pub open spec fn mark_of(index: int, loss: int, old_loss: int) -> SlotMark {
    if index < loss {
        if index == old_loss {
            SlotMark::FreshlyDead
        } else {
            SlotMark::Dead
        }
    } else {
        SlotMark::Free
    }
}

/// The marks of the `slots` slots of one side's dead zone, first slot
/// first.
pub fn deadzone_marks(slots: usize, loss: usize, old_loss: usize) -> (marks: Vec<SlotMark>)
    ensures
        marks.len() == slots,
        forall|i: int|
            0 <= i < slots ==> #[trigger] marks[i] == mark_of(i, loss as int, old_loss as int),
{
    let mut marks: Vec<SlotMark> = Vec::new();
    let mut index: usize = 0;
    while index < slots
        invariant
            index <= slots,
            marks.len() == index,
            forall|i: int|
                0 <= i < index ==> #[trigger] marks[i] == mark_of(i, loss as int, old_loss as int),
        decreases slots - index,
    {
        let mark = if index < loss {
            if index == old_loss {
                SlotMark::FreshlyDead
            } else {
                SlotMark::Dead
            }
        } else {
            SlotMark::Free
        };
        marks.push(mark);
        index += 1;
    }
    marks
}

/// A dead zone shows as many marbles as were lost, as far as it has
/// slots, and highlights at most one of them: the one in the slot that the
/// count before the move points at, if the count has grown past it.
pub proof fn deadzone_marks_agree(slots: nat, loss: nat, old_loss: nat, index: nat)
    requires
        index < slots,
    ensures
        mark_of(index as int, loss as int, old_loss as int) is Free <==> index >= loss,
        mark_of(index as int, loss as int, old_loss as int) is FreshlyDead <==> (index == old_loss
            && old_loss < loss),
        loss <= old_loss ==> !(mark_of(index as int, loss as int, old_loss as int) is FreshlyDead),
{
}

} // verus!
