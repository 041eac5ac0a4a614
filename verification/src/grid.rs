//! The mathematical model of one generation: a torus of cells stored row by
//! row. Everything here is ghost code; the contracts of `Universe` are stated
//! over it.

use vstd::prelude::*;
use crate::cell::Cell;

verus! {

/// One generation of the automaton.
///
/// The cell in row `r` and column `c` is `cells[r * width + c]`.
#[verifier::ext_equal]
pub struct Grid {
    pub width: nat,
    pub height: nat,
    pub cells: Seq<Cell>,
}

impl Grid {
    /// Both dimensions are positive and there is one cell per position.
    pub open spec fn wf(self) -> bool {
        &&& self.width > 0
        &&& self.height > 0
        &&& self.cells.len() == self.width * self.height
    }

    /// `(row, col)` names a position of the grid.
    pub open spec fn in_bounds(self, row: int, col: int) -> bool {
        0 <= row < self.height && 0 <= col < self.width
    }

    /// The place of `(row, col)` in `cells`.
    pub open spec fn index(self, row: int, col: int) -> int {
        row * self.width + col
    }

    /// The cell at `(row, col)`.
    pub open spec fn cell(self, row: int, col: int) -> Cell {
        self.cells[self.index(row, col)]
    }

    /// The row above `row`; above the first row lies the last.
    pub open spec fn up(self, row: int) -> int {
        (row + (self.height - 1)) % (self.height as int)
    }

    /// The row below `row`; below the last row lies the first.
    pub open spec fn down(self, row: int) -> int {
        (row + 1) % (self.height as int)
    }

    /// The column left of `col`; left of the first column lies the last.
    pub open spec fn left(self, col: int) -> int {
        (col + (self.width - 1)) % (self.width as int)
    }

    /// The column right of `col`; right of the last column lies the first.
    pub open spec fn right(self, col: int) -> int {
        (col + 1) % (self.width as int)
    }

    /// How many of the eight neighbours of `(row, col)` are alive.
    ///
    /// There are always eight terms. On a grid with a single row or a single
    /// column several of them name the same cell, which is then counted once
    /// for each direction it is reached by.
    pub open spec fn live_neighbors(self, row: int, col: int) -> int {
        self.cell(self.up(row), self.left(col)).population()
            + self.cell(self.up(row), col).population()
            + self.cell(self.up(row), self.right(col)).population()
            + self.cell(row, self.left(col)).population()
            + self.cell(row, self.right(col)).population()
            + self.cell(self.down(row), self.left(col)).population()
            + self.cell(self.down(row), col).population()
            + self.cell(self.down(row), self.right(col)).population()
    }

    /// The initial generation of a `width` by `height` grid.
    pub open spec fn seeded(width: nat, height: nat) -> Grid {
        Grid { width, height, cells: Seq::new(width * height, |x: int| Cell::seeded(x)) }
    }

    /// The next generation. Every cell is judged by its neighbours in `self`,
    /// never by a cell of the generation being built.
    pub open spec fn step(self) -> Grid {
        Grid {
            width: self.width,
            height: self.height,
            cells: Seq::new(
                self.cells.len(),
                |i: int|
                    self.cells[i].next(
                        self.live_neighbors(i / (self.width as int), i % (self.width as int)),
                    ),
            ),
        }
    }

    /// The generation after `n` steps.
    pub open spec fn steps(self, n: nat) -> Grid
        decreases n,
    {
        if n == 0 {
            self
        } else {
            self.steps((n - 1) as nat).step()
        }
    }

    /// The grid with the cell at `(row, col)` flipped.
    pub open spec fn toggled(self, row: int, col: int) -> Grid {
        Grid {
            width: self.width,
            height: self.height,
            cells: self.cells.update(self.index(row, col), self.cell(row, col).flipped()),
        }
    }

    /// The text of row `row`: one glyph per cell, left to right, then a line
    /// break.
    pub open spec fn line(self, row: int) -> Seq<char> {
        Seq::new(self.width, |col: int| self.cell(row, col).glyph_of()).push('\n')
    }

    /// The text of the first `rows` rows, top to bottom.
    pub open spec fn lines(self, rows: nat) -> Seq<char>
        decreases rows,
    {
        if rows == 0 {
            Seq::empty()
        } else {
            self.lines((rows - 1) as nat) + self.line(rows - 1)
        }
    }

    /// The text of the whole grid.
    pub open spec fn rendered(self) -> Seq<char> {
        self.lines(self.height)
    }

    /// The place in the rendered text of the glyph for `(row, col)`. With
    /// `col == width` it is the place of the line break that ends row `row`.
    pub open spec fn text_offset(self, row: int, col: int) -> int {
        row * (self.width + 1) + col
    }
}

} // verus!
