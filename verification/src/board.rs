//! Board positions as plain values.

use vstd::prelude::*;

verus! {

/// Rows and columns of every board representation.
pub const BOARD_SIZE: usize = 11;

/// A complete position: rows of cells, each cell one of the codes below.
/// A board is never changed in place; every transition yields a new value.
pub type Board = [[i8; 11]; 11];

/// Cell code of an empty field.
pub const EMPTY: i8 = 0;

/// Cell code of a white marble.
pub const WHITE: i8 = 1;

/// Cell code of a black marble.
pub const BLACK: i8 = 2;

/// Cell code of a position outside the hexagon.
pub const OFF_BOARD: i8 = 3;

/// The hexagonal board without marbles. It doubles as the placeholder
/// position of a shutdown message that reports no real final position.
pub const EMPTY_BOARD: Board = [
    [3, 3, 3, 3, 3, 3, 3, 3, 3, 3, 3],
    [3, 3, 3, 3, 3, 0, 0, 0, 0, 0, 3],
    [3, 3, 3, 3, 0, 0, 0, 0, 0, 0, 3],
    [3, 3, 3, 0, 0, 0, 0, 0, 0, 0, 3],
    [3, 3, 0, 0, 0, 0, 0, 0, 0, 0, 3],
    [3, 0, 0, 0, 0, 0, 0, 0, 0, 0, 3],
    [3, 0, 0, 0, 0, 0, 0, 0, 0, 3, 3],
    [3, 0, 0, 0, 0, 0, 0, 0, 3, 3, 3],
    [3, 0, 0, 0, 0, 0, 0, 3, 3, 3, 3],
    [3, 0, 0, 0, 0, 0, 3, 3, 3, 3, 3],
    [3, 3, 3, 3, 3, 3, 3, 3, 3, 3, 3],
];

/// The usual competitive starting position.
pub const BELGIAN_DAISY: Board = [
    [3, 3, 3, 3, 3, 3, 3, 3, 3, 3, 3],
    [3, 3, 3, 3, 3, 1, 1, 0, 2, 2, 3],
    [3, 3, 3, 3, 1, 1, 1, 2, 2, 2, 3],
    [3, 3, 3, 0, 1, 1, 0, 2, 2, 0, 3],
    [3, 3, 0, 0, 0, 0, 0, 0, 0, 0, 3],
    [3, 0, 0, 0, 0, 0, 0, 0, 0, 0, 3],
    [3, 0, 0, 0, 0, 0, 0, 0, 0, 3, 3],
    [3, 0, 2, 2, 0, 1, 1, 0, 3, 3, 3],
    [3, 2, 2, 2, 1, 1, 1, 3, 3, 3, 3],
    [3, 2, 2, 0, 1, 1, 3, 3, 3, 3, 3],
    [3, 3, 3, 3, 3, 3, 3, 3, 3, 3, 3],
];

/// A coordinate of the 11 by 11 board: `x` counts rows, `y` columns.
#[derive(Clone, Copy, Debug, PartialEq, Eq, Structural)]
pub struct Cell {
    pub x: usize,
    pub y: usize,
}

impl Cell {
    /// Whether the cell lies off the rim of the 11 by 11 board, where
    /// marbles can be.
    pub open spec fn is_field(self) -> bool {
        1 <= self.x <= 9 && 1 <= self.y <= 9
    }

    /// The cell `dx` rows and `dy` columns further on.
    pub open spec fn stepped(self, dx: int, dy: int) -> Cell {
        Cell { x: (self.x + dx) as usize, y: (self.y + dy) as usize }
    }

    /// Whether `other` is at most one row and one column away.
    pub open spec fn touches(self, other: Cell) -> bool {
        &&& -1 <= other.x - self.x <= 1
        &&& -1 <= other.y - self.y <= 1
    }
}

/// How many marbles each side starts with.
pub const MARBLES_MAX: usize = 14;

/// Whether `c` is a coordinate of the 11 by 11 board.
pub open spec fn on_board(c: Cell) -> bool {
    c.x < 11 && c.y < 11
}

/// Pushing an element adds exactly that element to what a sequence
/// contains.
proof fn push_adds_one(cells: Seq<Cell>, c: Cell)
    ensures
        forall|e: Cell| #[trigger] cells.push(c).contains(e) <==> cells.contains(e) || e == c,
{
    assert forall|e: Cell| #[trigger] cells.push(c).contains(e) <==> cells.contains(e) || e
        == c by {
        if cells.contains(e) {
            let j = choose|j: int| 0 <= j < cells.len() && cells[j] == e;
            assert(cells.push(c)[j] == e);
        }
        if e == c {
            assert(cells.push(c)[cells.len() as int] == e);
        }
        if cells.push(c).contains(e) {
            let k = choose|k: int| 0 <= k < cells.push(c).len() && cells.push(c)[k] == e;
            if k < cells.len() {
                assert(cells[k] == e);
            }
        }
    }
}

/// Pushing an element that a sequence lacks keeps it free of repetitions.
proof fn push_fresh_keeps_distinct(cells: Seq<Cell>, c: Cell)
    requires
        cells.no_duplicates(),
        !cells.contains(c),
    ensures
        cells.push(c).no_duplicates(),
{
    assert forall|i: int, j: int|
        0 <= i < cells.push(c).len() && 0 <= j < cells.push(c).len() && i != j implies cells.push(
        c,
    )[i] != cells.push(c)[j] by {
        if i < cells.len() && j < cells.len() {
            assert(cells[i] != cells[j]);
        } else if i < cells.len() {
            assert(cells.contains(cells[i]));
        } else {
            assert(cells.contains(cells[j]));
        }
    }
}

/// Whether `a` comes before `b` when the board is read row by row.
pub open spec fn comes_before(a: Cell, b: Cell) -> bool {
    a.x < b.x || (a.x == b.x && a.y < b.y)
}

/// Whether `cells` are listed in the order in which the board is read row
/// by row.
pub open spec fn row_by_row(cells: Seq<Cell>) -> bool {
    forall|i: int, j: int| 0 <= i < j < cells.len() ==> comes_before(cells[i], cells[j])
}

/// Whether `c` comes before row `x`, or in row `x` before column `y`.
spec fn scanned(c: Cell, x: int, y: int) -> bool {
    on_board(c) && (c.x < x || (c.x == x && c.y < y))
}

/// The coordinates of the cells of `board` that hold `code`, row by row,
/// each once.
pub fn cells_with(board: &Board, code: i8) -> (cells: Vec<Cell>)
    ensures
        cells@.no_duplicates(),
        row_by_row(cells@),
        forall|c: Cell| #[trigger] cells@.contains(c) <==> on_board(c) && board[c.x as int][c.y as int] == code,
{
    let mut cells: Vec<Cell> = Vec::new();
    let mut x: usize = 0;
    while x < 11
        invariant
            x <= 11,
            cells@.no_duplicates(),
            row_by_row(cells@),
            forall|i: int| 0 <= i < cells@.len() ==> scanned(#[trigger] cells@[i], x as int, 0),
            forall|c: Cell|
                #[trigger] cells@.contains(c) <==> scanned(c, x as int, 0) && board[c.x as int][c.y as int]
                    == code,
        decreases 11 - x,
    {
        let mut y: usize = 0;
        while y < 11
            invariant
                x < 11,
                y <= 11,
                cells@.no_duplicates(),
                row_by_row(cells@),
                forall|i: int|
                    0 <= i < cells@.len() ==> scanned(#[trigger] cells@[i], x as int, y as int),
                forall|c: Cell|
                    #[trigger] cells@.contains(c) <==> scanned(c, x as int, y as int)
                        && board[c.x as int][c.y as int] == code,
            decreases 11 - y,
        {
            if board[x][y] == code {
                proof {
                    push_adds_one(cells@, Cell { x, y });
                    assert(!scanned(Cell { x, y }, x as int, y as int));
                    push_fresh_keeps_distinct(cells@, Cell { x, y });
                }
                cells.push(Cell { x, y });
            }
            y += 1;
        }
        x += 1;
    }
    cells
}

/// The coordinates at which two boards differ, row by row, each once.
pub fn differences(before: &Board, after: &Board) -> (cells: Vec<Cell>)
    ensures
        cells@.no_duplicates(),
        row_by_row(cells@),
        forall|c: Cell|
            #[trigger] cells@.contains(c) <==> on_board(c) && before[c.x as int][c.y as int]
                != after[c.x as int][c.y as int],
{
    let mut cells: Vec<Cell> = Vec::new();
    let mut x: usize = 0;
    while x < 11
        invariant
            x <= 11,
            cells@.no_duplicates(),
            row_by_row(cells@),
            forall|i: int| 0 <= i < cells@.len() ==> scanned(#[trigger] cells@[i], x as int, 0),
            forall|c: Cell|
                #[trigger] cells@.contains(c) <==> scanned(c, x as int, 0) && before[c.x as int][c.y as int]
                    != after[c.x as int][c.y as int],
        decreases 11 - x,
    {
        let mut y: usize = 0;
        while y < 11
            invariant
                x < 11,
                y <= 11,
                cells@.no_duplicates(),
                row_by_row(cells@),
                forall|i: int|
                    0 <= i < cells@.len() ==> scanned(#[trigger] cells@[i], x as int, y as int),
                forall|c: Cell|
                    #[trigger] cells@.contains(c) <==> scanned(c, x as int, y as int)
                        && before[c.x as int][c.y as int] != after[c.x as int][c.y as int],
            decreases 11 - y,
        {
            if before[x][y] != after[x][y] {
                proof {
                    push_adds_one(cells@, Cell { x, y });
                    assert(!scanned(Cell { x, y }, x as int, y as int));
                    push_fresh_keeps_distinct(cells@, Cell { x, y });
                }
                cells.push(Cell { x, y });
            }
            y += 1;
        }
        x += 1;
    }
    cells
}

/// How many marbles a side has lost when `remaining` of its marbles are on
/// the board.
pub fn marbles_lost(remaining: usize) -> (lost: usize)
    ensures
        lost == (if remaining <= 14 {
            14 - remaining
        } else {
            0
        }),
{
    if remaining <= MARBLES_MAX {
        MARBLES_MAX - remaining
    } else {
        0
    }
}

/// The cell code seen from the other side: the two colours trade places,
/// every other code stays.
pub open spec fn swapped(cell: i8) -> i8 {
    if cell == WHITE {
        BLACK
    } else if cell == BLACK {
        WHITE
    } else {
        cell
    }
}

/// Whether `turned` is `board` seen from the other side: turned by half a
/// turn, with the colours traded.
pub open spec fn is_rotation(board: Board, turned: Board) -> bool {
    forall|x: int, y: int|
        0 <= x < 11 && 0 <= y < 11 ==> #[trigger] turned[x][y] == swapped(board[10 - x][10 - y])
}

/// The board as the player of `black_moved` sees it: untouched for white,
/// seen from the other side for black.
pub open spec fn is_oriented(board: Board, black_moved: bool, shown: Board) -> bool {
    if black_moved {
        is_rotation(board, shown)
    } else {
        shown == board
    }
}

/// The board seen from the other side.
pub fn rotate_board(board: Board) -> (turned: Board)
    ensures
        is_rotation(board, turned),
{
    let mut turned: Board = [[0i8; 11]; 11];
    let mut x: usize = 0;
    while x < 11
        invariant
            x <= 11,
            forall|i: int, j: int|
                0 <= i < x && 0 <= j < 11 ==> #[trigger] turned[i][j] == swapped(
                    board[10 - i][10 - j],
                ),
        decreases 11 - x,
    {
        let mut row: [i8; 11] = [0i8; 11];
        let mut y: usize = 0;
        while y < 11
            invariant
                x < 11,
                y <= 11,
                forall|j: int| 0 <= j < y ==> #[trigger] row[j] == swapped(board[10 - x][10 - j]),
            decreases 11 - y,
        {
            let cell = board[10 - x][10 - y];
            let seen = if cell == WHITE {
                BLACK
            } else if cell == BLACK {
                WHITE
            } else {
                cell
            };
            row[y] = seen;
            y += 1;
        }
        turned[x] = row;
        x += 1;
    }
    turned
}

/// The board that is committed after a move: the position the mover
/// reached, put the way the game keeps it. A move of black arrives seen
/// from black's side and is turned; a move of white is kept as it is.
pub fn committed_board(next_state: Board, black_moved: bool) -> (shown: Board)
    ensures
        is_oriented(next_state, black_moved, shown),
{
    if black_moved {
        rotate_board(next_state)
    } else {
        next_state
    }
}

/// Looking from the other side twice shows the board one started with.
pub proof fn rotation_is_involution(board: Board, turned: Board, back: Board)
    requires
        is_rotation(board, turned),
        is_rotation(turned, back),
    ensures
        forall|x: int, y: int| 0 <= x < 11 && 0 <= y < 11 ==> #[trigger] back[x][y] == board[x][y],
        back == board,
{
    assert forall|x: int, y: int| 0 <= x < 11 && 0 <= y < 11 implies #[trigger] back[x][y]
        == board[x][y] by {
        assert(back[x][y] == swapped(turned[10 - x][10 - y]));
        assert(turned[10 - x][10 - y] == swapped(board[10 - (10 - x)][10 - (10 - y)]));
    }
    assert forall|x: int| 0 <= x < 11 implies #[trigger] back[x] == board[x] by {
        assert forall|y: int| 0 <= y < 11 implies back[x][y] == board[x][y] by {
            assert(back[x][y] == board[x][y]);
        }
        assert(back[x]@ =~= board[x]@);
    }
    assert(back@ =~= board@);
}

} // verus!
