//! The mathematical model of a canvas, and what holds of it.

use vstd::prelude::*;
use crate::color::{Color, spec_black};

verus! {

/// Why an access to a canvas was refused.
#[derive(Clone, Copy, Debug, PartialEq, Eq, Structural)]
pub enum CanvasError {
    /// The column is not below the width, or the row is not below the height.
    IndexOutOfRange,
}

/// A canvas as a mathematical value: `height` rows of `width` colors each.
/// The cell in column `x` of row `y` is `rows[y][x]`.
pub struct Grid {
    pub width: nat,
    pub height: nat,
    pub rows: Seq<Seq<Color>>,
}

impl Grid {
    /// There are `height` rows, and every row has `width` cells.
    pub open spec fn wf(self) -> bool {
        &&& self.rows.len() == self.height
        &&& forall|y: int| 0 <= y < self.height ==> (#[trigger] self.rows[y]).len() == self.width
    }

    /// The grid of the given size whose cells are all black.
    pub open spec fn blank(width: nat, height: nat) -> Grid {
        Grid {
            width,
            height,
            rows: Seq::new(height, |y: int| Seq::new(width, |x: int| spec_black())),
        }
    }

    /// Column `x` of row `y` is a cell of the grid.
    pub open spec fn in_range(self, x: int, y: int) -> bool {
        0 <= x < self.width && 0 <= y < self.height
    }

    /// The color in column `x` of row `y`.
    pub open spec fn cell(self, x: int, y: int) -> Color
        recommends
            self.wf(),
            self.in_range(x, y),
    {
        self.rows[y][x]
    }

    /// What reading column `x` of row `y` gives: the cell's color, or the
    /// refusal where there is no such cell.
    pub open spec fn read(self, x: int, y: int) -> Result<Color, CanvasError> {
        if self.in_range(x, y) {
            Ok(self.cell(x, y))
        } else {
            Err(CanvasError::IndexOutOfRange)
        }
    }

    /// The grid after `color` is written to column `x` of row `y`: that one
    /// cell is replaced. Where there is no such cell the grid stays as it is.
    pub open spec fn write(self, x: int, y: int, color: Color) -> Grid {
        if self.in_range(x, y) {
            Grid {
                width: self.width,
                height: self.height,
                rows: self.rows.update(y, self.rows[y].update(x, color)),
            }
        } else {
            self
        }
    }
}

/// A blank grid is well formed and has the size it was asked for, also
/// where one of the sizes is zero and the grid has no cell.
pub proof fn lemma_blank_shape(width: nat, height: nat)
    ensures
        Grid::blank(width, height).wf(),
        Grid::blank(width, height).width == width,
        Grid::blank(width, height).height == height,
{
}

/// Every cell of a blank grid reads as black.
pub proof fn lemma_blank_reads_black(width: nat, height: nat, x: int, y: int)
    requires
        0 <= x < width,
        0 <= y < height,
    ensures
        Grid::blank(width, height).read(x, y) == Ok::<Color, CanvasError>(spec_black()),
{
}

/// After a write to a cell, that cell reads as the color written, every
/// other cell reads as it did before, and the grid keeps its size.
pub proof fn lemma_write_then_read(g: Grid, x: int, y: int, color: Color, x2: int, y2: int)
    requires
        g.wf(),
        g.in_range(x, y),
        g.in_range(x2, y2),
    ensures
        g.write(x, y, color).wf(),
        g.write(x, y, color).width == g.width,
        g.write(x, y, color).height == g.height,
        g.write(x, y, color).read(x2, y2) == if x2 == x && y2 == y {
            Ok::<Color, CanvasError>(color)
        } else {
            g.read(x2, y2)
        },
{
}

/// An access outside the grid is refused, and a refused write changes
/// nothing. The first column and row outside, `x == width` and `y == height`,
/// are among them.
pub proof fn lemma_out_of_range_refused(g: Grid, x: int, y: int, color: Color)
    requires
        x >= g.width || y >= g.height,
    ensures
        g.read(x, y) == Err::<Color, CanvasError>(CanvasError::IndexOutOfRange),
        g.write(x, y, color) == g,
{
}

} // verus!
