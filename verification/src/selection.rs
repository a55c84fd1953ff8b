//! Which marbles are picked for a move, and which may be picked next.
//!
//! A click on a picked marble puts it back. A click on a marble that may
//! be added to the picked ones adds it; when that makes a pair, the two
//! fields that lengthen the pair's line may be picked next. Any other
//! click starts over with that marble alone, and its six neighbours may be
//! picked next.

use crate::board::Cell;
use vstd::prelude::*;

verus! {

/// The six fields round a field of the hexagonal board.
pub open spec fn neighbours(c: Cell) -> Set<Cell> {
    set![
        c.stepped(1, 0),
        c.stepped(1, -1),
        c.stepped(0, 1),
        c.stepped(-1, 0),
        c.stepped(-1, 1),
        c.stepped(0, -1),
    ]
}

/// The two fields that lengthen the line from `first` to `second`: one
/// beyond `second`, one before `first`.
pub open spec fn line_ends(first: Cell, second: Cell) -> Set<Cell> {
    set![
        second.stepped(second.x - first.x, second.y - first.y),
        first.stepped(first.x - second.x, first.y - second.y),
    ]
}

/// A selection as a mathematical value.
pub struct SelectionState {
    /// The picked marbles.
    pub selected: Set<Cell>,
    /// The marbles that may be added to the picked ones.
    pub allowed: Set<Cell>,
}

impl SelectionState {
    /// Whether a click on `c` lengthens the selection.
    pub open spec fn extends_with(self, c: Cell) -> bool {
        !self.selected.contains(c) && self.allowed.contains(c)
    }

    /// Whether a click on `c` can be taken in: `c` is a field, and where
    /// the click makes a pair, `c` lies next to the marble it is paired
    /// with.
    pub open spec fn admits(self, c: Cell) -> bool {
        &&& c.is_field()
        &&& self.extends_with(c) && self.selected.len() == 1 ==> self.selected.choose().touches(c)
    }

    /// The selection after a click on `c`.
    pub open spec fn picked(self, c: Cell) -> SelectionState {
        if self.selected.contains(c) {
            SelectionState { selected: self.selected.remove(c), allowed: self.allowed }
        } else if self.allowed.contains(c) {
            SelectionState {
                selected: self.selected.insert(c),
                allowed: if self.selected.len() == 1 {
                    line_ends(self.selected.choose(), c)
                } else {
                    Set::empty()
                },
            }
        } else {
            SelectionState { selected: set![c], allowed: neighbours(c) }
        }
    }
}

/// Whether `c` is among `cells`.
fn holds(cells: &Vec<Cell>, c: Cell) -> (r: bool)
    ensures
        r == cells@.contains(c),
{
    let mut i: usize = 0;
    while i < cells.len()
        invariant
            i <= cells.len(),
            forall|j: int| 0 <= j < i ==> cells[j] != c,
        decreases cells.len() - i,
    {
        if cells[i] == c {
            return true;
        }
        i += 1;
    }
    false
}

/// Adds `c` to `cells` unless it is there already.
fn add_cell(cells: &mut Vec<Cell>, c: Cell)
    requires
        old(cells)@.no_duplicates(),
    ensures
        final(cells)@.no_duplicates(),
        final(cells)@.to_set() == old(cells)@.to_set().insert(c),
{
    if !holds(cells, c) {
        cells.push(c);
        proof {
            let before = old(cells)@;
            assert forall|e: Cell| before.push(c).contains(e) <==> before.contains(e) || e == c by {
                if before.contains(e) {
                    let j = choose|j: int| 0 <= j < before.len() && before[j] == e;
                    assert(before.push(c)[j] == e);
                }
                if e == c {
                    assert(before.push(c)[before.len() as int] == e);
                }
            }
            assert(before.push(c).to_set() =~= before.to_set().insert(c));
        }
    } else {
        assert(cells@.to_set() =~= cells@.to_set().insert(c));
    }
}

/// The cells of `cells` other than `c`.
fn without(cells: &Vec<Cell>, c: Cell) -> (rest: Vec<Cell>)
    requires
        cells@.no_duplicates(),
    ensures
        rest@.no_duplicates(),
        rest@.to_set() == cells@.to_set().remove(c),
{
    let mut rest: Vec<Cell> = Vec::new();
    let mut i: usize = 0;
    while i < cells.len()
        invariant
            i <= cells.len(),
            cells@.no_duplicates(),
            rest@.no_duplicates(),
            forall|e: Cell|
                rest@.contains(e) <==> (e != c && exists|j: int| 0 <= j < i && cells[j] == e),
        decreases cells.len() - i,
    {
        let cell = cells[i];
        if cell != c {
            proof {
                let before = rest@;
                if before.contains(cell) {
                    let j = choose|j: int| 0 <= j < i && cells[j] == cell;
                    assert(cells[j] == cells[i as int]);
                }
                assert forall|e: Cell|
                    before.push(cell).contains(e) <==> (e != c && exists|j: int|
                        0 <= j < i + 1 && cells[j] == e) by {
                    if before.push(cell).contains(e) {
                        let k = choose|k: int|
                            0 <= k < before.push(cell).len() && before.push(cell)[k] == e;
                        if k < before.len() {
                            assert(before[k] == e);
                            assert(before.contains(e));
                            let j = choose|j: int| 0 <= j < i && cells[j] == e;
                            assert(0 <= j < i + 1 && cells[j] == e);
                        } else {
                            assert(e == cell);
                            assert(0 <= i < i + 1 && cells[i as int] == e);
                        }
                    }
                    if e != c && exists|j: int| 0 <= j < i + 1 && cells[j] == e {
                        let j = choose|j: int| 0 <= j < i + 1 && cells[j] == e;
                        if j < i {
                            assert(before.contains(e));
                            let k = choose|k: int| 0 <= k < before.len() && before[k] == e;
                            assert(before.push(cell)[k] == e);
                        } else {
                            assert(before.push(cell)[before.len() as int] == e);
                        }
                    }
                }
            }
            rest.push(cell);
        } else {
            proof {
                assert forall|e: Cell|
                    rest@.contains(e) <==> (e != c && exists|j: int|
                        0 <= j < i + 1 && cells[j] == e) by {
                    if e != c && exists|j: int| 0 <= j < i + 1 && cells[j] == e {
                        let j = choose|j: int| 0 <= j < i + 1 && cells[j] == e;
                        assert(j < i);
                    }
                }
            }
        }
        i += 1;
    }
    proof {
        assert forall|e: Cell| rest@.to_set().contains(e) <==> cells@.to_set().remove(c).contains(
            e,
        ) by {
            if cells@.contains(e) {
                let j = choose|j: int| 0 <= j < cells@.len() && cells@[j] == e;
                assert(0 <= j < i && cells[j] == e);
            }
        }
        assert(rest@.to_set() =~= cells@.to_set().remove(c));
    }
    rest
}

/// The marbles picked for a move and those that may be picked next.
pub struct Selection {
    selected: Vec<Cell>,
    allowed: Vec<Cell>,
}

impl View for Selection {
    type V = SelectionState;

    closed spec fn view(&self) -> SelectionState {
        SelectionState { selected: self.selected@.to_set(), allowed: self.allowed@.to_set() }
    }
}

impl Selection {
    #[verifier::type_invariant]
    spec fn inv(self) -> bool {
        &&& self.selected@.no_duplicates()
        &&& self.allowed@.no_duplicates()
        &&& forall|i: int| 0 <= i < self.selected@.len() ==> (#[trigger] self.selected@[i]).is_field()
    }

    /// Nothing picked, nothing to pick next.
    pub fn new() -> (s: Selection)
        ensures
            s@.selected == Set::<Cell>::empty(),
            s@.allowed == Set::<Cell>::empty(),
    {
        let s = Selection { selected: Vec::new(), allowed: Vec::new() };
        assert(s.selected@.to_set() =~= Set::<Cell>::empty());
        assert(s.allowed@.to_set() =~= Set::<Cell>::empty());
        s
    }

    /// Whether `c` is picked.
    pub fn is_selected(&self, c: Cell) -> (r: bool)
        ensures
            r == self@.selected.contains(c),
    {
        holds(&self.selected, c)
    }

    /// Whether `c` may be added to the picked marbles.
    pub fn is_allowed(&self, c: Cell) -> (r: bool)
        ensures
            r == self@.allowed.contains(c),
    {
        holds(&self.allowed, c)
    }

    /// How many marbles are picked.
    pub fn count(&self) -> (n: usize)
        ensures
            n == self@.selected.len(),
            self@.selected.finite(),
    {
        proof {
            use_type_invariant(self);
            self.selected@.unique_seq_to_set();
        }
        self.selected.len()
    }

    /// The picked marbles, each once, in no particular order.
    pub fn selected_cells(&self) -> (cells: Vec<Cell>)
        ensures
            cells@.to_set() == self@.selected,
            cells@.no_duplicates(),
            forall|i: int| 0 <= i < cells@.len() ==> (#[trigger] cells@[i]).is_field(),
    {
        proof {
            use_type_invariant(self);
        }
        self.selected.clone()
    }

    /// The marbles that may be picked next, each once, in no particular
    /// order.
    pub fn allowed_cells(&self) -> (cells: Vec<Cell>)
        ensures
            cells@.to_set() == self@.allowed,
            cells@.no_duplicates(),
    {
        proof {
            use_type_invariant(self);
        }
        self.allowed.clone()
    }

    /// Puts every picked marble back, as after a move. What may be picked
    /// next stays as it is.
    pub fn clear_selected(&mut self)
        ensures
            final(self)@.selected == Set::<Cell>::empty(),
            final(self)@.allowed == old(self)@.allowed,
    {
        proof {
            use_type_invariant(&*self);
        }
        let cleared: Vec<Cell> = Vec::new();
        assert(cleared@.to_set() =~= Set::<Cell>::empty());
        self.selected = cleared;
    }

    /// Whether a click on `c` can be taken in.
    pub fn admits(&self, c: Cell) -> (r: bool)
        ensures
            r == self@.admits(c),
    {
        proof {
            use_type_invariant(self);
            self.selected@.unique_seq_to_set();
        }
        if c.x < 1 || c.x > 9 || c.y < 1 || c.y > 9 {
            return false;
        }
        if !holds(&self.selected, c) && holds(&self.allowed, c) && self.selected.len() == 1 {
            let first = self.selected[0];
            proof {
                self.lone_selected();
            }
            first.x <= c.x + 1 && c.x <= first.x + 1 && first.y <= c.y + 1 && c.y <= first.y + 1
        } else {
            true
        }
    }

    /// Where one marble is picked, it is the marble the model speaks of.
    proof fn lone_selected(self)
        requires
            self.selected@.len() == 1,
        ensures
            self@.selected.choose() == self.selected@[0],
            self@.selected =~= set![self.selected@[0]],
    {
        let only = self.selected@[0];
        assert(self.selected@.contains(only));
        assert(self@.selected.contains(only));
        let chosen = self@.selected.choose();
        assert(self@.selected.contains(chosen));
        assert(self.selected@.contains(chosen));
    }

    /// Takes a click on the marble at `c` in.
    pub fn pick(&mut self, c: Cell)
        requires
            old(self)@.admits(c),
        ensures
            final(self)@ == old(self)@.picked(c),
    {
        proof {
            use_type_invariant(&*self);
            self.selected@.unique_seq_to_set();
        }
        if holds(&self.selected, c) {
            let rest = without(&self.selected, c);
            proof {
                assert forall|i: int| 0 <= i < rest@.len() implies (#[trigger] rest@[i]).is_field() by {
                    assert(rest@.to_set().contains(rest@[i]));
                    assert(self.selected@.contains(rest@[i]));
                }
            }
            self.selected = rest;
        } else if holds(&self.allowed, c) {
            let mut next: Vec<Cell> = Vec::new();
            assert(next@.to_set() =~= Set::<Cell>::empty());
            if self.selected.len() == 1 {
                let first = self.selected[0];
                proof {
                    self.lone_selected();
                }
                let beyond = Cell { x: c.x + c.x - first.x, y: c.y + c.y - first.y };
                let before = Cell { x: first.x + first.x - c.x, y: first.y + first.y - c.y };
                assert(beyond == c.stepped(c.x - first.x, c.y - first.y));
                assert(before == first.stepped(first.x - c.x, first.y - c.y));
                add_cell(&mut next, beyond);
                add_cell(&mut next, before);
                assert(next@.to_set() =~= line_ends(first, c));
            }
            let mut grown = self.selected.clone();
            assert(grown@ == self.selected@);
            add_cell(&mut grown, c);
            proof {
                assert forall|i: int| 0 <= i < grown@.len() implies (#[trigger] grown@[i]).is_field() by {
                    assert(grown@.to_set().contains(grown@[i]));
                    if grown@[i] != c {
                        assert(self.selected@.contains(grown@[i]));
                    }
                }
            }
            *self = Selection { selected: grown, allowed: next };
        } else {
            let mut alone: Vec<Cell> = Vec::new();
            assert(alone@.to_set() =~= Set::<Cell>::empty());
            add_cell(&mut alone, c);
            assert(alone@.to_set() =~= set![c]);
            assert(alone@.to_set().contains(c));
            let mut round: Vec<Cell> = Vec::new();
            assert(round@.to_set() =~= Set::<Cell>::empty());
            add_cell(&mut round, Cell { x: c.x + 1, y: c.y });
            add_cell(&mut round, Cell { x: c.x + 1, y: c.y - 1 });
            add_cell(&mut round, Cell { x: c.x, y: c.y + 1 });
            add_cell(&mut round, Cell { x: c.x - 1, y: c.y });
            add_cell(&mut round, Cell { x: c.x - 1, y: c.y + 1 });
            add_cell(&mut round, Cell { x: c.x, y: c.y - 1 });
            assert(round@.to_set() =~= neighbours(c));
            proof {
                assert forall|i: int| 0 <= i < alone@.len() implies (#[trigger] alone@[i]).is_field() by {
                    assert(alone@.to_set().contains(alone@[i]));
                }
            }
            *self = Selection { selected: alone, allowed: round };
        }
    }

    /// Takes a click on the marble at `c` in if it can be taken in, and
    /// says whether it was. A click that cannot be taken in changes
    /// nothing.
    pub fn try_pick(&mut self, c: Cell) -> (taken: bool)
        ensures
            taken == old(self)@.admits(c),
            taken ==> final(self)@ == old(self)@.picked(c),
            !taken ==> final(self)@ == old(self)@,
    {
        if self.admits(c) {
            self.pick(c);
            true
        } else {
            false
        }
    }
}

} // verus!
