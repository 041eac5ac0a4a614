//! Theorems about the model: what holds of every grid, whatever its size and
//! whatever generation it is in.

use vstd::prelude::*;
use vstd::arithmetic::div_mod::lemma_fundamental_div_mod_converse;
use crate::cell::Cell;
use crate::grid::Grid;

verus! {

/// Every position of the grid has a place in `cells`: row-major indexing
/// never leaves the sequence.
pub proof fn lemma_index_bounds(g: Grid, row: int, col: int)
    requires
        g.wf(),
        g.in_bounds(row, col),
    ensures
        0 <= g.index(row, col) < g.cells.len(),
{
    let w = g.width as int;
    let h = g.height as int;
    assert(0 <= row * w) by (nonlinear_arith)
        requires
            0 <= row,
            0 <= w,
    ;
    assert(row * w + w <= h * w) by (nonlinear_arith)
        requires
            row + 1 <= h,
            0 <= w,
    ;
    assert(w * h == h * w) by (nonlinear_arith);
}

/// A place in `cells` determines its position: the row is the quotient by
/// the width and the column is the remainder.
pub proof fn lemma_index_row_col(g: Grid, row: int, col: int)
    requires
        g.wf(),
        g.in_bounds(row, col),
    ensures
        g.index(row, col) / (g.width as int) == row,
        g.index(row, col) % (g.width as int) == col,
{
    lemma_fundamental_div_mod_converse(g.index(row, col), g.width as int, row, col);
}

/// Two positions that share a place in `cells` are the same position.
pub proof fn lemma_index_injective(g: Grid, row1: int, col1: int, row2: int, col2: int)
    requires
        g.wf(),
        g.in_bounds(row1, col1),
        g.in_bounds(row2, col2),
        g.index(row1, col1) == g.index(row2, col2),
    ensures
        row1 == row2,
        col1 == col2,
{
    lemma_index_row_col(g, row1, col1);
    lemma_index_row_col(g, row2, col2);
}

/// The torus has no edge: the rows above and below a row of the grid, and the
/// columns left and right of a column of the grid, are again in the grid.
pub proof fn lemma_wrap_in_bounds(g: Grid, row: int, col: int)
    requires
        g.wf(),
        g.in_bounds(row, col),
    ensures
        0 <= g.up(row) < g.height,
        0 <= g.down(row) < g.height,
        0 <= g.left(col) < g.width,
        0 <= g.right(col) < g.width,
        g.up(row) == (if row == 0 { g.height - 1 } else { row - 1 }),
        g.down(row) == (if row == g.height - 1 { 0 } else { row + 1 }),
        g.left(col) == (if col == 0 { g.width - 1 } else { col - 1 }),
        g.right(col) == (if col == g.width - 1 { 0 } else { col + 1 }),
{
    let w = g.width as int;
    let h = g.height as int;
    if row == 0 {
        lemma_fundamental_div_mod_converse(row + (h - 1), h, 0, h - 1);
    } else {
        lemma_fundamental_div_mod_converse(row + (h - 1), h, 1, row - 1);
    }
    if row == h - 1 {
        lemma_fundamental_div_mod_converse(row + 1, h, 1, 0);
    } else {
        lemma_fundamental_div_mod_converse(row + 1, h, 0, row + 1);
    }
    if col == 0 {
        lemma_fundamental_div_mod_converse(col + (w - 1), w, 0, w - 1);
    } else {
        lemma_fundamental_div_mod_converse(col + (w - 1), w, 1, col - 1);
    }
    if col == w - 1 {
        lemma_fundamental_div_mod_converse(col + 1, w, 1, 0);
    } else {
        lemma_fundamental_div_mod_converse(col + 1, w, 0, col + 1);
    }
}

/// A cell has eight neighbours, so between none and eight of them are alive.
/// This holds at every position of every grid.
pub proof fn lemma_live_neighbors_bounds(g: Grid, row: int, col: int)
    ensures
        0 <= g.live_neighbors(row, col) <= 8,
{
}

/// The initial pattern depends on the dimensions alone: the cell at flat
/// index `x` is alive exactly when `x` is a multiple of 2 or of 7.
pub proof fn lemma_seeded(width: nat, height: nat, x: int)
    requires
        0 <= x < width * height,
    ensures
        Grid::seeded(width, height).width == width,
        Grid::seeded(width, height).height == height,
        Grid::seeded(width, height).cells.len() == width * height,
        Grid::seeded(width, height).cells[x] == Cell::Alive <==> (x % 2 == 0 || x % 7 == 0),
        Grid::seeded(width, height).cells[x] == Cell::Dead <==> !(x % 2 == 0 || x % 7 == 0),
{
}

/// Stepping keeps the dimensions, and the new state of every cell is the rule
/// applied to its old state and to the number of its neighbours that were
/// alive before the step. No cell of the new generation enters the count.
pub proof fn lemma_step_cell(g: Grid, row: int, col: int)
    requires
        g.wf(),
        g.in_bounds(row, col),
    ensures
        g.step().wf(),
        g.step().width == g.width,
        g.step().height == g.height,
        g.step().cell(row, col) == g.cell(row, col).next(g.live_neighbors(row, col)),
{
    lemma_index_bounds(g, row, col);
    lemma_index_row_col(g, row, col);
}

/// Any number of steps keeps the grid well formed and its dimensions fixed.
pub proof fn lemma_steps_wf(g: Grid, n: nat)
    requires
        g.wf(),
    ensures
        g.steps(n).wf(),
        g.steps(n).width == g.width,
        g.steps(n).height == g.height,
    decreases n,
{
    if n > 0 {
        lemma_steps_wf(g, (n - 1) as nat);
    }
}

/// A generation that one step leaves unchanged is left unchanged by any
/// number of steps.
pub proof fn lemma_still_life(g: Grid, n: nat)
    requires
        g.step() == g,
    ensures
        g.steps(n) == g,
    decreases n,
{
    if n > 0 {
        lemma_still_life(g, (n - 1) as nat);
    }
}

/// Toggling flips the cell it names and leaves every other cell as it was.
pub proof fn lemma_toggled_cell(g: Grid, row: int, col: int, other_row: int, other_col: int)
    requires
        g.wf(),
        g.in_bounds(row, col),
        g.in_bounds(other_row, other_col),
    ensures
        g.toggled(row, col).wf(),
        g.toggled(row, col).width == g.width,
        g.toggled(row, col).height == g.height,
        g.toggled(row, col).cell(row, col) == g.cell(row, col).flipped(),
        (other_row != row || other_col != col) ==> g.toggled(row, col).cell(other_row, other_col)
            == g.cell(other_row, other_col),
{
    lemma_index_bounds(g, row, col);
    lemma_index_bounds(g, other_row, other_col);
    if other_row != row || other_col != col {
        if g.index(row, col) == g.index(other_row, other_col) {
            lemma_index_injective(g, row, col, other_row, other_col);
        }
    }
}

/// Toggling the same cell twice restores the grid: the cell is back in its
/// first state and no other cell has changed.
pub proof fn lemma_toggle_twice(g: Grid, row: int, col: int)
    requires
        g.wf(),
        g.in_bounds(row, col),
    ensures
        g.toggled(row, col).toggled(row, col) == g,
{
    lemma_index_bounds(g, row, col);
    assert(g.toggled(row, col).toggled(row, col).cells =~= g.cells);
}

/// The text of the first `rows` rows has `width + 1` characters per row.
proof fn lemma_lines_len(g: Grid, rows: nat)
    ensures
        g.lines(rows).len() == rows * (g.width + 1),
    decreases rows,
{
    let w = g.width as int;
    if rows > 0 {
        lemma_lines_len(g, (rows - 1) as nat);
        assert((rows - 1) * (w + 1) + (w + 1) == rows * (w + 1)) by (nonlinear_arith);
    }
}

/// The text of the first `rows` rows: `width` glyphs and a line break for
/// each of them, in order.
proof fn lemma_lines_shape(g: Grid, rows: nat, row: int, col: int)
    requires
        0 <= row < rows,
        0 <= col <= g.width,
    ensures
        g.lines(rows).len() == rows * (g.width + 1),
        0 <= g.text_offset(row, col) < g.lines(rows).len(),
        g.lines(rows)[g.text_offset(row, col)] == (if col == g.width {
            '\n'
        } else {
            g.cell(row, col).glyph_of()
        }),
    decreases rows,
{
    let w = g.width as int;
    lemma_lines_len(g, (rows - 1) as nat);
    assert((rows - 1) * (w + 1) + (w + 1) == rows * (w + 1)) by (nonlinear_arith);
    assert(0 <= row * (w + 1)) by (nonlinear_arith)
        requires
            0 <= row,
            0 <= w,
    ;
    if row < rows - 1 {
        lemma_lines_shape(g, (rows - 1) as nat, row, col);
    } else {
        assert(g.lines(rows)[g.text_offset(row, col)] == g.line(row)[col]);
    }
}

/// No glyph is a line break, so the line breaks of a rendered grid are
/// exactly the ends of its rows.
pub proof fn lemma_glyph_is_no_line_break(cell: Cell)
    ensures
        cell.glyph_of() != '\n',
        cell.glyph_of() == crate::cell::ALIVE_GLYPH <==> cell == Cell::Alive,
        cell.glyph_of() == crate::cell::DEAD_GLYPH <==> cell == Cell::Dead,
{
}

/// The shape of the rendered text: `height` lines, each of exactly `width`
/// glyphs followed by a line break, the glyph of `(row, col)` standing in
/// line `row` at place `col`.
pub proof fn lemma_rendered_shape(g: Grid)
    requires
        g.wf(),
    ensures
        g.rendered().len() == g.height * (g.width + 1),
        forall|row: int, col: int|
            g.in_bounds(row, col) ==> 0 <= #[trigger] g.text_offset(row, col) < g.rendered().len()
                && g.rendered()[g.text_offset(row, col)] == g.cell(row, col).glyph_of()
                && g.rendered()[g.text_offset(row, col)] != '\n',
        forall|row: int|
            0 <= row < g.height ==> 0 <= #[trigger] g.text_offset(row, g.width as int)
                < g.rendered().len() && g.rendered()[g.text_offset(row, g.width as int)] == '\n',
{
    lemma_lines_len(g, g.height);
    assert forall|row: int, col: int| g.in_bounds(row, col) implies 0 <= #[trigger] g.text_offset(
        row,
        col,
    ) < g.rendered().len() && g.rendered()[g.text_offset(row, col)] == g.cell(row, col).glyph_of()
        && g.rendered()[g.text_offset(row, col)] != '\n' by {
        lemma_lines_shape(g, g.height, row, col);
        lemma_glyph_is_no_line_break(g.cell(row, col));
    }
    assert forall|row: int| 0 <= row < g.height implies 0 <= #[trigger] g.text_offset(
        row,
        g.width as int,
    ) < g.rendered().len() && g.rendered()[g.text_offset(row, g.width as int)] == '\n' by {
        lemma_lines_shape(g, g.height, row, g.width as int);
    }
}

} // verus!
