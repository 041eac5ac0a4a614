//! The executable grid.

use vstd::prelude::*;
use crate::cell::Cell;
use crate::error::UniverseError;
use crate::grid::Grid;
use crate::laws::{
    lemma_index_bounds,
    lemma_index_row_col,
    lemma_rendered_shape,
    lemma_wrap_in_bounds,
};

verus! {

/// The number of columns of the default grid.
pub const DEFAULT_WIDTH: u32 = 64;

/// The number of rows of the default grid.
pub const DEFAULT_HEIGHT: u32 = 64;

/// One generation of the automaton on a torus of fixed size, advanced in
/// place by [`Universe::tick`].
pub struct Universe {
    width: u32,
    height: u32,
    cells: Vec<Cell>,
}

impl View for Universe {
    type V = Grid;

    closed spec fn view(&self) -> Grid {
        Grid { width: self.width as nat, height: self.height as nat, cells: self.cells@ }
    }
}

impl Default for Universe {
    /// The default grid: 64 by 64, holding the initial pattern.
    fn default() -> (u: Universe)
        ensures
            u.wf(),
            u@ == Grid::seeded(DEFAULT_WIDTH as nat, DEFAULT_HEIGHT as nat),
    {
        Universe::seeded(DEFAULT_WIDTH, DEFAULT_HEIGHT)
    }
}

/// The position `offset` steps after `pos` on a ring of `len` positions.
fn wrapped(pos: u32, offset: u32, len: u32) -> (r: u32)
    requires
        len > 0,
    ensures
        r == (pos + offset) % (len as int),
        r < len,
{
    let sum: u64 = pos as u64 + offset as u64;
    let r: u64 = sum % (len as u64);
    r as u32
}

impl Universe {
    /// The invariant of the type: positive dimensions and one cell per
    /// position. Every constructor establishes it and every method keeps it.
    pub open spec fn wf(&self) -> bool {
        self@.wf()
    }

    /// Builds the initial generation of a `width` by `height` grid.
    fn seeded(width: u32, height: u32) -> (u: Universe)
        requires
            width > 0,
            height > 0,
            width * height <= usize::MAX,
        ensures
            u.wf(),
            u@ == Grid::seeded(width as nat, height as nat),
    {
        assert(0 <= (width as int) * (height as int)) by (nonlinear_arith);
        let len: usize = width as usize * height as usize;
        let mut cells: Vec<Cell> = Vec::with_capacity(len);
        let mut x: usize = 0;
        while x < len
            invariant
                x <= len,
                cells@.len() == x,
                forall|i: int| 0 <= i < x ==> cells@[i] == Cell::seeded(i),
            decreases len - x,
        {
            cells.push(Cell::seed(x));
            x += 1;
        }
        Universe { width, height, cells }
    }

    /// Creates a grid of `width` columns and `height` rows holding the
    /// initial pattern, in which the cell at flat index `x` is alive exactly
    /// when `x` is a multiple of 2 or of 7.
    ///
    /// A grid needs at least one row and one column: with `width` or `height`
    /// zero the result is `InvalidDimensions`. The number of cells has to fit
    /// the address space.
    pub fn new(width: u32, height: u32) -> (r: Result<Universe, UniverseError>)
        requires
            width * height <= usize::MAX,
        ensures
            r is Err <==> (width == 0 || height == 0),
            r is Err ==> r == Err::<Universe, UniverseError>(UniverseError::InvalidDimensions),
            r matches Ok(u) ==> {
                &&& u.wf()
                &&& u@ == Grid::seeded(width as nat, height as nat)
                &&& forall|x: int|
                    0 <= x < width * height ==> (u@.cells[x] == Cell::Alive <==> (x % 2 == 0 || x
                        % 7 == 0))
            },
    {
        if width == 0 || height == 0 {
            Err(UniverseError::InvalidDimensions)
        } else {
            Ok(Universe::seeded(width, height))
        }
    }

    /// The place of `(row, col)` in the row-major cell sequence.
    pub fn get_index(&self, row: u32, col: u32) -> (idx: usize)
        requires
            self.wf(),
            self@.in_bounds(row as int, col as int),
        ensures
            idx == self@.index(row as int, col as int),
            idx < self@.cells.len(),
    {
        proof {
            // The index is below the length of a vector, so it fits a usize.
            lemma_index_bounds(self@, row as int, col as int);
            assert(self@.cells.len() == self.cells.len());
            assert(0 <= row * self.width) by (nonlinear_arith);
        }
        row as usize * self.width as usize + col as usize
    }

    /// What the cell at `(row, col)` adds to a neighbour count.
    fn population_at(&self, row: u32, col: u32) -> (v: u8)
        requires
            self.wf(),
            self@.in_bounds(row as int, col as int),
        ensures
            v == self@.cell(row as int, col as int).population(),
            v <= 1,
    {
        let idx: usize = self.get_index(row, col);
        self.cells[idx].value()
    }

    /// Counts the live cells among the eight neighbours of `(row, col)` on
    /// the torus.
    pub fn count_live_neighbors(&self, row: u32, col: u32) -> (count: u8)
        requires
            self.wf(),
            self@.in_bounds(row as int, col as int),
        ensures
            count == self@.live_neighbors(row as int, col as int),
            count <= 8,
    {
        proof {
            lemma_wrap_in_bounds(self@, row as int, col as int);
        }
        let up: u32 = wrapped(row, self.height - 1, self.height);
        let down: u32 = wrapped(row, 1, self.height);
        let left: u32 = wrapped(col, self.width - 1, self.width);
        let right: u32 = wrapped(col, 1, self.width);
        let mut count: u8 = 0;
        count += self.population_at(up, left);
        count += self.population_at(up, col);
        count += self.population_at(up, right);
        count += self.population_at(row, left);
        count += self.population_at(row, right);
        count += self.population_at(down, left);
        count += self.population_at(down, col);
        count += self.population_at(down, right);
        count
    }

    /// Advances the grid by one generation.
    ///
    /// Every cell of the new generation is computed from the generation
    /// before the call; the cells are replaced together at the end.
    pub fn tick(&mut self)
        requires
            old(self).wf(),
        ensures
            final(self).wf(),
            final(self)@ == old(self)@.step(),
            final(self)@.width == old(self)@.width,
            final(self)@.height == old(self)@.height,
            forall|row: int, col: int| #[trigger]
                old(self)@.in_bounds(row, col) ==> final(self)@.cell(row, col) == old(self)@.cell(
                    row,
                    col,
                ).next(old(self)@.live_neighbors(row, col)),
    {
        let ghost before: Grid = self@;
        let mut next: Vec<Cell> = Vec::with_capacity(self.cells.len());
        let mut row: u32 = 0;
        while row < self.height
            invariant
                self.wf(),
                self@ == before,
                row <= self.height,
                next@.len() == row * self.width,
                next@.len() <= before.cells.len(),
                forall|i: int| 0 <= i < next@.len() ==> next@[i] == before.step().cells[i],
            decreases self.height - row,
        {
            let mut col: u32 = 0;
            while col < self.width
                invariant
                    self.wf(),
                    self@ == before,
                    row < self.height,
                    col <= self.width,
                    next@.len() == row * self.width + col,
                    next@.len() <= before.cells.len(),
                    forall|i: int| 0 <= i < next@.len() ==> next@[i] == before.step().cells[i],
                decreases self.width - col,
            {
                let idx: usize = self.get_index(row, col);
                let live: u8 = self.count_live_neighbors(row, col);
                proof {
                    lemma_index_row_col(before, row as int, col as int);
                }
                next.push(self.cells[idx].step(live));
                col += 1;
            }
            proof {
                assert(row * self.width + self.width == (row + 1) * self.width)
                    by (nonlinear_arith);
            }
            row += 1;
        }
        proof {
            assert(self.height * self.width == self.width * self.height) by (nonlinear_arith);
            assert(next@ =~= before.step().cells);
            assert forall|row: int, col: int| #[trigger]
                before.in_bounds(row, col) implies before.step().cell(row, col) == before.cell(
                row,
                col,
            ).next(before.live_neighbors(row, col)) by {
                lemma_index_bounds(before, row, col);
                lemma_index_row_col(before, row, col);
            }
        }
        self.cells = next;
    }

    /// Flips the cell at `(row, col)` and leaves every other cell as it was.
    ///
    /// The position must lie in the grid; [`Universe::try_toggle_cell`]
    /// accepts any position and reports one that does not.
    pub fn toggle_cell(&mut self, row: u32, col: u32)
        requires
            old(self).wf(),
            old(self)@.in_bounds(row as int, col as int),
        ensures
            final(self).wf(),
            final(self)@ == old(self)@.toggled(row as int, col as int),
    {
        let idx: usize = self.get_index(row, col);
        self.cells[idx].toggle();
    }

    /// Flips the cell at `(row, col)` if that position lies in the grid, and
    /// otherwise changes nothing and reports `IndexOutOfRange`.
    pub fn try_toggle_cell(&mut self, row: u32, col: u32) -> (r: Result<(), UniverseError>)
        requires
            old(self).wf(),
        ensures
            final(self).wf(),
            r is Ok <==> old(self)@.in_bounds(row as int, col as int),
            r is Ok ==> final(self)@ == old(self)@.toggled(row as int, col as int),
            r is Err ==> r == Err::<(), UniverseError>(UniverseError::IndexOutOfRange)
                && *final(self) == *old(self),
    {
        if row < self.height && col < self.width {
            self.toggle_cell(row, col);
            Ok(())
        } else {
            Err(UniverseError::IndexOutOfRange)
        }
    }

    /// Draws the grid as text: one line per row from top to bottom, one
    /// glyph per cell from left to right, and a line break after each row.
    /// The grid is not changed.
    pub fn render(&self) -> (text: String)
        requires
            self.wf(),
        ensures
            text@ == self@.rendered(),
            text@.len() == self@.height * (self@.width + 1),
    {
        proof {
            lemma_rendered_shape(self@);
        }
        let mut text: String = String::new();
        let mut row: u32 = 0;
        while row < self.height
            invariant
                self.wf(),
                row <= self.height,
                text@ == self@.lines(row as nat),
            decreases self.height - row,
        {
            let ghost above: Seq<char> = text@;
            let mut col: u32 = 0;
            while col < self.width
                invariant
                    self.wf(),
                    row < self.height,
                    col <= self.width,
                    text@ == above + Seq::new(
                        col as nat,
                        |c: int| self@.cell(row as int, c).glyph_of(),
                    ),
                decreases self.width - col,
            {
                let idx: usize = self.get_index(row, col);
                text.append(self.cells[idx].glyph());
                assert(text@ =~= above + Seq::new(
                    (col + 1) as nat,
                    |c: int| self@.cell(row as int, c).glyph_of(),
                ));
                col += 1;
            }
            proof {
                reveal_strlit("\n");
            }
            text.append("\n");
            assert(text@ =~= above + self@.line(row as int));
            row += 1;
        }
        text
    }

    /// The number of columns.
    pub fn width(&self) -> (w: u32)
        ensures
            w == self@.width,
    {
        self.width
    }

    /// The number of rows.
    pub fn height(&self) -> (h: u32)
        ensures
            h == self@.height,
    {
        self.height
    }

    /// The cells of the current generation, row by row. The slice borrows
    /// the grid, which therefore cannot change while the slice is in use.
    pub fn cells(&self) -> (s: &[Cell])
        ensures
            s@ == self@.cells,
    {
        self.cells.as_slice()
    }
}

} // verus!
