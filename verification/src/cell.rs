//! A single cell of the automaton and the rules that concern one cell alone.

use vstd::prelude::*;

verus! {

/// Glyph drawn for a live cell: a filled square.
pub const ALIVE_GLYPH: char = '\u{25A0}';

/// Glyph drawn for a dead cell: an empty square.
pub const DEAD_GLYPH: char = '\u{25A1}';

/// The state of one cell. There is no third state.
#[derive(Clone, Copy, Debug, PartialEq, Eq, Structural)]
pub enum Cell {
    Dead,
    Alive,
}

impl Cell {
    /// The other state.
    pub open spec fn flipped(self) -> Cell {
        match self {
            Cell::Dead => Cell::Alive,
            Cell::Alive => Cell::Dead,
        }
    }

    /// What the cell adds to a neighbour count: 1 when alive, 0 when dead.
    pub open spec fn population(self) -> int {
        match self {
            Cell::Dead => 0,
            Cell::Alive => 1,
        }
    }

    /// The initial state of the cell at flat index `x`: alive exactly when `x`
    /// is a multiple of 2 or of 7.
    pub open spec fn seeded(x: int) -> Cell {
        if x % 2 == 0 || x % 7 == 0 {
            Cell::Alive
        } else {
            Cell::Dead
        }
    }

    /// The state in the next generation of a cell that now has
    /// `live_neighbors` live neighbours: alive with exactly three, unchanged
    /// with exactly two, dead otherwise.
    pub open spec fn next(self, live_neighbors: int) -> Cell {
        if live_neighbors == 3 || (self == Cell::Alive && live_neighbors == 2) {
            Cell::Alive
        } else {
            Cell::Dead
        }
    }

    /// The character that stands for the cell in a rendered grid.
    pub open spec fn glyph_of(self) -> char {
        match self {
            Cell::Dead => DEAD_GLYPH,
            Cell::Alive => ALIVE_GLYPH,
        }
    }

    /// Flips the cell in place.
    pub fn toggle(&mut self)
        ensures
            *final(self) == old(self).flipped(),
    {
        *self = if *self == Cell::Alive {
            Cell::Dead
        } else {
            Cell::Alive
        };
    }

    /// The cell as a number: 0 for `Dead`, 1 for `Alive`.
    pub fn value(self) -> (v: u8)
        ensures
            v == self.population(),
    {
        match self {
            Cell::Dead => 0,
            Cell::Alive => 1,
        }
    }

    /// The initial state of the cell at flat index `x`.
    pub fn seed(x: usize) -> (c: Cell)
        ensures
            c == Cell::seeded(x as int),
    {
        if x % 2 == 0 || x % 7 == 0 {
            Cell::Alive
        } else {
            Cell::Dead
        }
    }

    /// Applies the rule of the automaton to one cell.
    pub fn step(self, live_neighbors: u8) -> (c: Cell)
        ensures
            c == self.next(live_neighbors as int),
    {
        if live_neighbors == 3 {
            Cell::Alive
        } else if self == Cell::Alive && live_neighbors == 2 {
            Cell::Alive
        } else {
            Cell::Dead
        }
    }

    /// The text that stands for the cell in a rendered grid: its one glyph.
    pub fn glyph(self) -> (g: &'static str)
        ensures
            g@ == seq![self.glyph_of()],
    {
        proof {
            reveal_strlit("\u{25A0}");
            reveal_strlit("\u{25A1}");
        }
        let g: &'static str = match self {
            Cell::Dead => "\u{25A1}",
            Cell::Alive => "\u{25A0}",
        };
        assert(g@ =~= seq![self.glyph_of()]);
        g
    }
}

/// Toggling is an involution: flipping a cell twice gives the cell back.
pub proof fn lemma_flipped_twice(cell: Cell)
    ensures
        cell.flipped().flipped() == cell,
        cell.flipped() != cell,
{
}

/// The full table of the rule. With three live neighbours a cell is alive
/// whatever it was; with two it keeps its state; with any other count, from
/// none to eight, it is dead.
pub proof fn lemma_rule_table(cell: Cell, live_neighbors: int)
    ensures
        live_neighbors == 3 ==> cell.next(live_neighbors) == Cell::Alive,
        live_neighbors == 2 ==> cell.next(live_neighbors) == cell,
        live_neighbors != 2 && live_neighbors != 3 ==> cell.next(live_neighbors) == Cell::Dead,
        Cell::Dead.next(3) == Cell::Alive,
        Cell::Alive.next(3) == Cell::Alive,
        Cell::Alive.next(2) == Cell::Alive,
        Cell::Dead.next(2) == Cell::Dead,
        Cell::Alive.next(0) == Cell::Dead,
        Cell::Alive.next(1) == Cell::Dead,
        4 <= live_neighbors <= 8 ==> Cell::Alive.next(live_neighbors) == Cell::Dead,
        0 <= live_neighbors <= 1 ==> Cell::Dead.next(live_neighbors) == Cell::Dead,
        4 <= live_neighbors <= 8 ==> Cell::Dead.next(live_neighbors) == Cell::Dead,
{
}

} // verus!
