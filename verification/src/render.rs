use vstd::prelude::*;

use crate::cell::Cell;
use crate::grid::{spec_index, Universe};
use vstd::string::StringExecFns;

verus! {

/// The glyph a cell is drawn as: an empty hexagon for a dead cell, a filled
/// one for a live cell.
pub open spec fn spec_glyph(c: Cell) -> char {
    if c is Dead {
        '⬡'
    } else {
        '⬢'
    }
}

/// The tail of one rendered row, from column `col` on: each cell's glyph
/// followed by a space, closed by a newline.
pub open spec fn spec_render_row(cells: Seq<Cell>, width: int, row: int, col: int) -> Seq<char>
    decreases width - col,
{
    if col < 0 || col >= width {
        seq!['\n']
    } else {
        seq![spec_glyph(cells[spec_index(width, row, col)]), ' '] + spec_render_row(
            cells,
            width,
            row,
            col + 1,
        )
    }
}

/// The rendering of all rows from `row` down: every even-indexed row carries
/// one extra leading space, staggering the lines as a hexagonal grid does.
pub open spec fn spec_render_from(cells: Seq<Cell>, width: int, height: int, row: int) -> Seq<
    char,
>
    decreases height - row,
{
    if row < 0 || row >= height {
        Seq::empty()
    } else {
        (if row % 2 == 0 {
            seq![' ']
        } else {
            Seq::<char>::empty()
        }) + spec_render_row(cells, width, row, 0) + spec_render_from(
            cells,
            width,
            height,
            row + 1,
        )
    }
}

/// The full textual rendering of a grid, one line per row.
pub open spec fn spec_render(cells: Seq<Cell>, width: int, height: int) -> Seq<char> {
    spec_render_from(cells, width, height, 0)
}

impl Universe {
    /// Renders the grid as text: one line per row, each cell as its glyph and
    /// a trailing space, even rows staggered by one extra leading space. A
    /// pure read of the grid state.
    pub fn render(&self) -> (r: String)
        requires
            self.wf(),
        ensures
            r@ == spec_render(
                self.spec_cells(),
                self.spec_width() as int,
                self.spec_height() as int,
            ),
    {
        let w = self.width();
        let h = self.height();
        let ghost gcells = self.spec_cells();
        let ghost total = spec_render(gcells, w as int, h as int);
        let mut s = String::new();
        let mut row: u32 = 0;
        while row < h
            invariant
                row <= h,
                self.wf(),
                w == self.spec_width(),
                h == self.spec_height(),
                gcells == self.spec_cells(),
                total == spec_render(gcells, w as int, h as int),
                s@ + spec_render_from(gcells, w as int, h as int, row as int) == total,
            decreases h - row,
        {
            let ghost s_row = s@;
            if row % 2 == 0 {
                s.append(" ");
                proof {
                    reveal_strlit(" ");
                }
            }
            proof {
                assert(s@ =~= s_row + (if (row as int) % 2 == 0 {
                    seq![' ']
                } else {
                    Seq::<char>::empty()
                }));
                assert(s@ + spec_render_row(gcells, w as int, row as int, 0) + spec_render_from(
                    gcells,
                    w as int,
                    h as int,
                    row as int + 1,
                ) =~= total);
            }
            let mut col: u32 = 0;
            while col < w
                invariant
                    col <= w,
                    row < h,
                    self.wf(),
                    w == self.spec_width(),
                    h == self.spec_height(),
                    gcells == self.spec_cells(),
                    total == spec_render(gcells, w as int, h as int),
                    s@ + spec_render_row(gcells, w as int, row as int, col as int)
                        + spec_render_from(gcells, w as int, h as int, row as int + 1) == total,
                decreases w - col,
            {
                let idx = self.get_index(row, col);
                let c = self.cells()[idx];
                let ghost s_before = s@;
                match c {
                    Cell::Dead => s.append("⬡ "),
                    Cell::Alive => s.append("⬢ "),
                }
                proof {
                    reveal_strlit("⬡ ");
                    reveal_strlit("⬢ ");
                    assert(s@ =~= s_before + seq![
                        spec_glyph(gcells[spec_index(w as int, row as int, col as int)]),
                        ' ',
                    ]);
                    assert(s@ + spec_render_row(gcells, w as int, row as int, col as int + 1)
                        + spec_render_from(gcells, w as int, h as int, row as int + 1) =~= total);
                }
                col = col + 1;
            }
            s.append("\n");
            proof {
                reveal_strlit("\n");
                assert(s@ + spec_render_from(gcells, w as int, h as int, row as int + 1)
                    =~= total);
            }
            row = row + 1;
        }
        proof {
            assert(s@ =~= total);
        }
        s
    }
}

} // verus!
