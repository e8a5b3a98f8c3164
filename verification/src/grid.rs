use vstd::prelude::*;

use crate::cell::{cell_count, flip, next_cell, Cell};
use vstd::arithmetic::div_mod::{
    lemma_fundamental_div_mod_converse, lemma_mod_add_multiples_vanish, lemma_mod_self_0,
    lemma_small_mod,
};
use vstd::arithmetic::mul::lemma_mul_inequality;

verus! {

/// Row-major position of (row, col) in a grid `width` cells wide.
pub open spec fn spec_index(width: int, row: int, col: int) -> int {
    row * width + col
}

/// A row-major position of an in-range coordinate pair lies within a buffer
/// of width * height cells.
pub proof fn lemma_index_in_range(width: int, height: int, row: int, col: int)
    requires
        1 <= width,
        1 <= height,
        0 <= row < height,
        0 <= col < width,
    ensures
        0 <= spec_index(width, row, col) < width * height,
{
    lemma_mul_inequality(row + 1, height, width);
    assert((row + 1) * width == row * width + width) by (nonlinear_arith);
    assert(row * width >= 0) by (nonlinear_arith)
        requires
            row >= 0 && width >= 0,
    ;
    assert(width * height == height * width) by (nonlinear_arith);
}

/// Stepping one place backward with toroidal wrap: the width-aware modulo
/// form equals the predecessor, except at zero, where it wraps to the end.
pub proof fn lemma_wrap_pred(i: int, m: int)
    requires
        0 <= i < m,
    ensures
        (i + m - 1) % m == if i == 0 { m - 1 } else { i - 1 },
{
    if i == 0 {
        lemma_small_mod((m - 1) as nat, m as nat);
    } else {
        lemma_mod_add_multiples_vanish(i - 1, m);
        lemma_small_mod((i - 1) as nat, m as nat);
    }
}

/// Stepping one place forward with toroidal wrap: the modulo form equals the
/// successor, except at the end, where it wraps to zero.
pub proof fn lemma_wrap_succ(i: int, m: int)
    requires
        0 <= i < m,
    ensures
        (i + 1) % m == if i == m - 1 { 0 } else { i + 1 },
{
    if i == m - 1 {
        lemma_mod_self_0(m);
    } else {
        lemma_small_mod((i + 1) as nat, m as nat);
    }
}

/// Number of live cells among the six hexagonal neighbors of (row, col) in a
/// toroidal grid: the cells directly above and below, one offset companion in
/// each of those two rows, and the cells to the left and right. The offset
/// column leans left on even rows and right on odd rows, and every coordinate
/// wraps via a width-aware modulo, so the count is defined on the torus.
pub open spec fn spec_neighbor_count(
    cells: Seq<Cell>,
    width: int,
    height: int,
    row: int,
    col: int,
) -> int {
    let up = (row + height - 1) % height;
    let down = (row + 1) % height;
    let left = (col + width - 1) % width;
    let right = (col + 1) % width;
    let offset = if row % 2 == 0 { left } else { right };
    cell_count(cells[spec_index(width, up, col)])
        + cell_count(cells[spec_index(width, up, offset)])
        + cell_count(cells[spec_index(width, down, col)])
        + cell_count(cells[spec_index(width, down, offset)])
        + cell_count(cells[spec_index(width, row, left)])
        + cell_count(cells[spec_index(width, row, right)])
}

/// The whole next generation: every cell is replaced by the transition rule
/// applied to its current state and its live-neighbor count, both taken over
/// the current (pre-step) buffer, so the step is a pure function of a
/// snapshot of the prior generation.
pub open spec fn spec_step(cells: Seq<Cell>, width: int, height: int) -> Seq<Cell> {
    Seq::new(
        cells.len(),
        |k: int|
            next_cell(cells[k], spec_neighbor_count(cells, width, height, k / width, k % width)),
    )
}

/// At each in-range coordinate pair, the stepped buffer holds exactly the
/// transition rule applied to the old cell there and its old neighbor count.
pub proof fn lemma_step_at(cells: Seq<Cell>, width: int, height: int, row: int, col: int)
    requires
        1 <= width,
        1 <= height,
        cells.len() == width * height,
        0 <= row < height,
        0 <= col < width,
    ensures
        spec_step(cells, width, height)[spec_index(width, row, col)] == next_cell(
            cells[spec_index(width, row, col)],
            spec_neighbor_count(cells, width, height, row, col),
        ),
{
    lemma_index_in_range(width, height, row, col);
    let k = spec_index(width, row, col);
    lemma_fundamental_div_mod_converse(k, width, row, col);
}

/// A fixed-size toroidal grid of cells, stored row-major in a flat buffer.
pub struct Universe {
    width: u32,
    height: u32,
    cells: Vec<Cell>,
}

/// Relies on js_sys::Math::random: one uniform draw in [0, 1) from the host
/// page's generator. A draw in the upper half rounds to one and yields a live
/// cell, so each cell is live with probability one half. The draw is random;
/// nothing is promised of the outcome beyond its being one of the two cell
/// states.
#[verifier::external_body]
fn random_cell() -> (c: Cell)
    ensures
        c is Alive || c is Dead,
{
    if js_sys::Math::random().round() as u8 == 1 {
        Cell::Alive
    } else {
        Cell::Dead
    }
}

impl Universe {
    /// Number of columns.
    pub closed spec fn spec_width(self) -> u32 {
        self.width
    }

    /// Number of rows.
    pub closed spec fn spec_height(self) -> u32 {
        self.height
    }

    /// The cell buffer, row-major.
    pub closed spec fn spec_cells(self) -> Seq<Cell> {
        self.cells@
    }

    /// A well-formed grid: positive dimensions, a total cell count that fits
    /// the index type, and a buffer of exactly width * height cells.
    pub open spec fn wf(self) -> bool {
        &&& 1 <= self.spec_width()
        &&& 1 <= self.spec_height()
        &&& self.spec_width() * self.spec_height() <= u32::MAX
        &&& self.spec_cells().len() == self.spec_width() * self.spec_height()
    }

    /// Builds the default 30-by-30 grid, each cell independently randomized.
    pub fn new() -> (u: Universe)
        ensures
            u.wf(),
            u.spec_width() == 30,
            u.spec_height() == 30,
    {
        let width: u32 = 30;
        let height: u32 = 30;
        let n: u32 = width * height;
        let mut cells: Vec<Cell> = Vec::new();
        let mut i: u32 = 0;
        while i < n
            invariant
                cells@.len() == i,
                i <= n,
                n == 900,
            decreases n - i,
        {
            cells.push(random_cell());
            i = i + 1;
        }
        Universe { width, height, cells }
    }

    /// Builds a grid from caller-supplied cells, for deterministic setups.
    pub fn with_cells(width: u32, height: u32, cells: Vec<Cell>) -> (u: Universe)
        requires
            1 <= width,
            1 <= height,
            width * height <= u32::MAX,
            cells@.len() == width * height,
        ensures
            u.wf(),
            u.spec_width() == width,
            u.spec_height() == height,
            u.spec_cells() == cells@,
    {
        Universe { width, height, cells }
    }

    /// Number of columns.
    pub fn width(&self) -> (w: u32)
        ensures
            w == self.spec_width(),
    {
        self.width
    }

    /// Number of rows.
    pub fn height(&self) -> (h: u32)
        ensures
            h == self.spec_height(),
    {
        self.height
    }

    /// Read-only view of the current cell buffer, row-major.
    pub fn cells(&self) -> (cells: &Vec<Cell>)
        ensures
            cells@ == self.spec_cells(),
    {
        &self.cells
    }

    /// Row-major position of (row, col). Coordinates must already be in
    /// range: callers wrap toroidal coordinates modulo the dimensions before
    /// calling, and this function itself performs no wrapping.
    pub(crate) fn get_index(&self, row: u32, col: u32) -> (idx: usize)
        requires
            self.wf(),
            row < self.spec_height(),
            col < self.spec_width(),
        ensures
            idx as int == spec_index(self.spec_width() as int, row as int, col as int),
            idx < self.spec_cells().len(),
    {
        proof {
            lemma_index_in_range(
                self.spec_width() as int,
                self.spec_height() as int,
                row as int,
                col as int,
            );
        }
        (row * self.width + col) as usize
    }

    /// Flips the cell at (row, col) between alive and dead; no other cell
    /// changes and the dimensions stay as they were.
    pub fn toogle_cell(&mut self, row: u32, col: u32)
        requires
            old(self).wf(),
            row < old(self).spec_height(),
            col < old(self).spec_width(),
        ensures
            final(self).wf(),
            final(self).spec_width() == old(self).spec_width(),
            final(self).spec_height() == old(self).spec_height(),
            final(self).spec_cells() == old(self).spec_cells().update(
                spec_index(old(self).spec_width() as int, row as int, col as int),
                flip(
                    old(self).spec_cells()[spec_index(
                        old(self).spec_width() as int,
                        row as int,
                        col as int,
                    )],
                ),
            ),
    {
        let idx = self.get_index(row, col);
        self.cells[idx].toogle();
    }

    /// Live-neighbor count of (row, col) under the hexagonal adjacency with
    /// toroidal wrap; always between zero and six.
    pub fn live_neighbor_count(&self, row: u32, col: u32) -> (count: u8)
        requires
            self.wf(),
            row < self.spec_height(),
            col < self.spec_width(),
        ensures
            count as int == spec_neighbor_count(
                self.spec_cells(),
                self.spec_width() as int,
                self.spec_height() as int,
                row as int,
                col as int,
            ),
            count <= 6,
    {
        let w = self.width;
        let h = self.height;
        let up = if row == 0 { h - 1 } else { row - 1 };
        let down = if row == h - 1 { 0 } else { row + 1 };
        let left = if col == 0 { w - 1 } else { col - 1 };
        let right = if col == w - 1 { 0 } else { col + 1 };
        let offset = if row % 2 == 0 { left } else { right };
        proof {
            lemma_wrap_pred(row as int, h as int);
            lemma_wrap_succ(row as int, h as int);
            lemma_wrap_pred(col as int, w as int);
            lemma_wrap_succ(col as int, w as int);
        }
        let mut count: u8 = 0;
        count += self.cells[self.get_index(up, col)].to_count();
        count += self.cells[self.get_index(up, offset)].to_count();
        count += self.cells[self.get_index(down, col)].to_count();
        count += self.cells[self.get_index(down, offset)].to_count();
        count += self.cells[self.get_index(row, left)].to_count();
        count += self.cells[self.get_index(row, right)].to_count();
        count
    }

    /// Advances the grid one generation: every cell is replaced according to
    /// the transition rule, with all neighbor counts computed from a snapshot
    /// of the current generation, and the finished buffer then replaces the
    /// old one wholesale — no intermediate state is observable.
    pub fn tick(&mut self)
        requires
            old(self).wf(),
        ensures
            final(self).wf(),
            final(self).spec_width() == old(self).spec_width(),
            final(self).spec_height() == old(self).spec_height(),
            final(self).spec_cells() == spec_step(
                old(self).spec_cells(),
                old(self).spec_width() as int,
                old(self).spec_height() as int,
            ),
    {
        let w = self.width;
        let h = self.height;
        let ghost gcells = self.cells@;
        let ghost gstep = spec_step(gcells, w as int, h as int);
        let mut next: Vec<Cell> = Vec::new();
        let mut row: u32 = 0;
        while row < h
            invariant
                row <= h,
                self.wf(),
                w == self.spec_width(),
                h == self.spec_height(),
                self.spec_cells() == gcells,
                gstep == spec_step(gcells, w as int, h as int),
                next@.len() == (row as int) * (w as int),
                forall|k: int| 0 <= k < next@.len() ==> next@[k] == gstep[k],
            decreases h - row,
        {
            let mut col: u32 = 0;
            while col < w
                invariant
                    col <= w,
                    row < h,
                    self.wf(),
                    w == self.spec_width(),
                    h == self.spec_height(),
                    self.spec_cells() == gcells,
                    gstep == spec_step(gcells, w as int, h as int),
                    next@.len() == (row as int) * (w as int) + (col as int),
                    forall|k: int| 0 <= k < next@.len() ==> next@[k] == gstep[k],
                decreases w - col,
            {
                let cell = self.cells[self.get_index(row, col)];
                let n = self.live_neighbor_count(row, col);
                proof {
                    lemma_step_at(gcells, w as int, h as int, row as int, col as int);
                }
                next.push(cell.next(n));
                col = col + 1;
            }
            proof {
                assert((row as int + 1) * (w as int) == (row as int) * (w as int) + (w as int))
                    by (nonlinear_arith);
            }
            row = row + 1;
        }
        proof {
            assert((h as int) * (w as int) == (w as int) * (h as int)) by (nonlinear_arith);
            assert(next@ =~= gstep);
        }
        self.cells = next;
    }
}

} // verus!
