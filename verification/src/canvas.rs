//! The canvas: a grid of colors of fixed size, read and written one cell at
//! a time.

use vstd::prelude::*;
use crate::color::{black, Color};
use crate::grid::{CanvasError, Grid};

verus! {

/// A canvas of `width` columns and `height` rows. Its size is fixed when it
/// is made; afterwards only single cells change.
pub struct Canvas {
    width: usize,
    height: usize,
    rows: Vec<Vec<Color>>,
}

impl View for Canvas {
    type V = Grid;

    closed spec fn view(&self) -> Grid {
        Grid {
            width: self.width as nat,
            height: self.height as nat,
            rows: Seq::new(self.rows@.len(), |y: int| self.rows@[y]@),
        }
    }
}

impl Canvas {
    #[verifier::type_invariant]
    spec fn inv(&self) -> bool {
        &&& self.rows@.len() == self.height
        &&& forall|y: int| 0 <= y < self.height ==> (#[trigger] self.rows@[y])@.len() == self.width
    }

    /// The number of columns.
    pub fn width(&self) -> (w: usize)
        ensures
            w == self@.width,
            self@.wf(),
    {
        proof {
            use_type_invariant(self);
        }
        self.width
    }

    /// The number of rows.
    pub fn height(&self) -> (h: usize)
        ensures
            h == self@.height,
            self@.wf(),
    {
        proof {
            use_type_invariant(self);
        }
        self.height
    }

    /// The color in column `x` of row `y`, or `IndexOutOfRange` where `x` is
    /// not below the width or `y` is not below the height.
    pub fn pixel_at(&self, x: usize, y: usize) -> (r: Result<Color, CanvasError>)
        ensures
            r == self@.read(x as int, y as int),
            self@.wf(),
    {
        proof {
            use_type_invariant(self);
        }
        if x >= self.width || y >= self.height {
            return Err(CanvasError::IndexOutOfRange);
        }
        Ok(self.rows[y][x])
    }

    /// Sets the cell in column `x` of row `y` to `color`. Where `x` is not
    /// below the width or `y` is not below the height, nothing is written
    /// and `IndexOutOfRange` comes back.
    pub fn write_pixel(&mut self, x: usize, y: usize, color: Color) -> (r: Result<(), CanvasError>)
        ensures
            r is Ok <==> old(self)@.in_range(x as int, y as int),
            r is Err ==> r == Err::<(), CanvasError>(CanvasError::IndexOutOfRange),
            final(self)@ == old(self)@.write(x as int, y as int, color),
            old(self)@.wf(),
            final(self)@.wf(),
    {
        proof {
            use_type_invariant(&*self);
        }
        if x >= self.width || y >= self.height {
            return Err(CanvasError::IndexOutOfRange);
        }
        set_cell(&mut self.rows, x, y, color);
        assert(self@.rows =~= old(self)@.rows.update(
            y as int,
            old(self)@.rows[y as int].update(x as int, color),
        ));
        Ok(())
    }
}

/// Replaces the cell in column `x` of row `y`; every row keeps its length.
fn set_cell(rows: &mut Vec<Vec<Color>>, x: usize, y: usize, color: Color)
    requires
        y < old(rows)@.len(),
        x < old(rows)@[y as int]@.len(),
    ensures
        final(rows)@ == old(rows)@.update(y as int, final(rows)@[y as int]),
        final(rows)@[y as int]@ == old(rows)@[y as int]@.update(x as int, color),
    no_unwind
{
    rows[y][x] = color;
}

/// A canvas of the given size with every cell black.
pub fn canvas(width: usize, height: usize) -> (c: Canvas)
    ensures
        c@ == Grid::blank(width as nat, height as nat),
        c@.wf(),
{
    let mut rows: Vec<Vec<Color>> = Vec::new();
    for y in 0..height
        invariant
            rows@.len() == y,
            forall|j: int| 0 <= j < y ==> (#[trigger] rows@[j])@ == Seq::new(
                width as nat,
                |x: int| black(),
            ),
    {
        let mut row: Vec<Color> = Vec::new();
        for x in 0..width
            invariant
                row@.len() == x,
                forall|i: int| 0 <= i < x ==> #[trigger] row@[i] == black(),
        {
            row.push(black());
        }
        assert(row@ =~= Seq::new(width as nat, |x: int| black()));
        rows.push(row);
    }
    let c = Canvas { width, height, rows };
    assert(c@.rows =~= Grid::blank(width as nat, height as nat).rows);
    c
}

} // verus!
