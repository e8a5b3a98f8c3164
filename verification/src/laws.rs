use vstd::prelude::*;

use crate::cell::{flip, next_cell, Cell};
use crate::grid::{
    lemma_index_in_range, lemma_wrap_pred, lemma_wrap_succ, spec_index, spec_neighbor_count,
    spec_step,
};
use crate::render::spec_render;
use vstd::arithmetic::div_mod::{
    lemma_div_pos_is_pos, lemma_fundamental_div_mod, lemma_fundamental_div_mod_converse_mod,
    lemma_mod_division_less_than_divisor, lemma_multiply_divide_lt,
};
use vstd::arithmetic::mul::lemma_mul_inequality;

verus! {

/// Advancing is deterministic: the next generation is a pure function of the
/// grid state alone, so stepping twice from the same saved state yields the
/// same result both times.
pub proof fn lemma_step_deterministic(
    cells1: Seq<Cell>,
    width1: int,
    height1: int,
    cells2: Seq<Cell>,
    width2: int,
    height2: int,
)
    requires
        cells1 == cells2,
        width1 == width2,
        height1 == height2,
    ensures
        spec_step(cells1, width1, height1) == spec_step(cells2, width2, height2),
{
}

/// The live-neighbor count is bounded: exactly six cells are sampled and each
/// contributes at most one, so every count lies between zero and six.
pub proof fn lemma_neighbor_count_bounds(
    cells: Seq<Cell>,
    width: int,
    height: int,
    row: int,
    col: int,
)
    ensures
        0 <= spec_neighbor_count(cells, width, height, row, col) <= 6,
{
}

/// The transition rule is total over all fourteen (state, count) pairs with a
/// count between zero and six, and matches the rule table exactly:
/// underpopulation and overpopulation kill a live cell, two or three live
/// neighbors sustain it, exactly three give birth to a dead cell, and every
/// other cell keeps its state.
pub proof fn lemma_rule_table(c: Cell, n: int)
    requires
        0 <= n <= 6,
    ensures
        c is Alive && n < 2 ==> next_cell(c, n) is Dead,
        c is Alive && (n == 2 || n == 3) ==> next_cell(c, n) is Alive,
        c is Alive && n > 3 ==> next_cell(c, n) is Dead,
        c is Dead && n == 3 ==> next_cell(c, n) is Alive,
        c is Dead && n != 3 ==> next_cell(c, n) == c,
{
}

/// In a grid with every cell dead, every neighbor count is zero.
pub proof fn lemma_neighbor_count_all_dead(
    cells: Seq<Cell>,
    width: int,
    height: int,
    row: int,
    col: int,
)
    requires
        1 <= width,
        1 <= height,
        cells.len() == width * height,
        forall|k: int| 0 <= k < cells.len() ==> cells[k] is Dead,
        0 <= row < height,
        0 <= col < width,
    ensures
        spec_neighbor_count(cells, width, height, row, col) == 0,
{
    lemma_mod_division_less_than_divisor(row + height - 1, height);
    lemma_mod_division_less_than_divisor(row + 1, height);
    lemma_mod_division_less_than_divisor(col + width - 1, width);
    lemma_mod_division_less_than_divisor(col + 1, width);
    let up = (row + height - 1) % height;
    let down = (row + 1) % height;
    let left = (col + width - 1) % width;
    let right = (col + 1) % width;
    let offset = if row % 2 == 0 { left } else { right };
    lemma_index_in_range(width, height, up, col);
    lemma_index_in_range(width, height, up, offset);
    lemma_index_in_range(width, height, down, col);
    lemma_index_in_range(width, height, down, offset);
    lemma_index_in_range(width, height, row, left);
    lemma_index_in_range(width, height, row, right);
}

/// No spontaneous birth: a grid with every cell dead steps to itself, since
/// no neighbor count can reach three from nothing.
pub proof fn lemma_all_dead_stays_dead(cells: Seq<Cell>, width: int, height: int)
    requires
        1 <= width,
        1 <= height,
        cells.len() == width * height,
        forall|k: int| 0 <= k < cells.len() ==> cells[k] is Dead,
    ensures
        spec_step(cells, width, height) == cells,
{
    assert forall|k: int| 0 <= k < cells.len() implies spec_step(cells, width, height)[k]
        == cells[k] by {
        let row = k / width;
        let col = k % width;
        lemma_div_pos_is_pos(k, width);
        lemma_multiply_divide_lt(k, width, height);
        lemma_mod_division_less_than_divisor(k, width);
        lemma_neighbor_count_all_dead(cells, width, height, row, col);
    }
    assert(spec_step(cells, width, height) =~= cells);
}

/// Toggling the same cell twice restores the original grid, and a single
/// toggle changes no cell but the one toggled.
pub proof fn lemma_toggle_idempotent(cells: Seq<Cell>, i: int)
    requires
        0 <= i < cells.len(),
    ensures
        cells.update(i, flip(cells[i])).update(
            i,
            flip(cells.update(i, flip(cells[i]))[i]),
        ) == cells,
        forall|j: int|
            0 <= j < cells.len() && j != i ==> cells.update(i, flip(cells[i]))[j] == cells[j],
{
    assert(cells.update(i, flip(cells[i])).update(i, flip(cells.update(i, flip(cells[i]))[i]))
        =~= cells);
}

/// Toroidal wrap: when the height is even and at least four, the corner cell
/// (0, 0) is hex-adjacent to the opposite corner (height-1, width-1) — the
/// bottom row is odd, so its offset neighbor in the wrapped row below lies
/// one column to the right, across both edges at once. Toggling (0, 0)
/// therefore moves that corner's neighbor count by exactly one: up when the
/// cell comes alive, down when it dies.
pub proof fn lemma_toroidal_wrap(cells: Seq<Cell>, width: int, height: int)
    requires
        2 <= width,
        4 <= height,
        height % 2 == 0,
        cells.len() == width * height,
    ensures
        spec_neighbor_count(
            cells.update(0, flip(cells[0])),
            width,
            height,
            height - 1,
            width - 1,
        ) == spec_neighbor_count(cells, width, height, height - 1, width - 1) + (
        if cells[0] is Dead {
            1int
        } else {
            -1int
        }),
{
    let row = height - 1;
    let col = width - 1;
    lemma_wrap_pred(row, height);
    lemma_wrap_succ(row, height);
    lemma_wrap_pred(col, width);
    lemma_wrap_succ(col, width);
    assert((row + height - 1) % height == height - 2);
    assert((row + 1) % height == 0);
    assert((col + width - 1) % width == width - 2);
    assert((col + 1) % width == 0);
    // the height is even, so the bottom row is odd and offsets to the right
    lemma_fundamental_div_mod(height, 2);
    lemma_fundamental_div_mod_converse_mod(row, 2, height / 2 - 1, 1);
    assert(row % 2 == 1);
    // the six sampled positions, all in range and all but (0, 0) away from it
    lemma_index_in_range(width, height, height - 2, col);
    lemma_index_in_range(width, height, height - 2, 0);
    lemma_index_in_range(width, height, 0, col);
    lemma_index_in_range(width, height, 0, 0);
    lemma_index_in_range(width, height, row, width - 2);
    lemma_index_in_range(width, height, row, 0);
    lemma_mul_inequality(1, height - 2, width);
    lemma_mul_inequality(1, row, width);
    assert(spec_index(width, height - 2, col) > 0);
    assert(spec_index(width, height - 2, 0) > 0);
    assert(spec_index(width, 0, col) > 0);
    assert(spec_index(width, 0, 0) == 0);
    assert(spec_index(width, row, width - 2) > 0);
    assert(spec_index(width, row, 0) > 0);
}

/// Rendering is a pure function of the grid state: with no step in between,
/// two renderings of the same state are identical, character for character.
pub proof fn lemma_render_deterministic(
    cells1: Seq<Cell>,
    width1: int,
    height1: int,
    cells2: Seq<Cell>,
    width2: int,
    height2: int,
)
    requires
        cells1 == cells2,
        width1 == width2,
        height1 == height2,
    ensures
        spec_render(cells1, width1, height1) == spec_render(cells2, width2, height2),
{
}

} // verus!
