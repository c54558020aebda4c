//! A canvas: a dense grid of pixel colors, row-major.

use vstd::prelude::*;

use crate::graphics::color::Color;

verus! {

/// Canvas: a grid of pixels with `height` and `width`, stored row-major
/// in one vector of length `width * height`.
#[derive(Clone, Debug, PartialEq)]
pub struct Canvas {
    pub width: usize,
    pub height: usize,
    pub grid: Vec<Color>,
}

impl Canvas {
    /// A well-formed canvas holds exactly one color per pixel.
    pub open spec fn wf(&self) -> bool {
        self.grid@.len() == self.width * self.height
    }

    /// Returns a new blank black `Canvas`.
    pub fn new(width: usize, height: usize) -> (r: Canvas)
        requires
            width * height <= usize::MAX,
        ensures
            r.wf(),
            r.width == width,
            r.height == height,
            forall|i: int|
                0 <= i < r.grid@.len() ==> #[trigger] r.grid@[i]@
                    == crate::graphics::color::c_black(),
    {
        Canvas::new_color(width, height, crate::graphics::color::black())
    }

    /// Returns a new blank `Canvas` filled with the given `Color`.
    pub fn new_color(width: usize, height: usize, color: Color) -> (r: Canvas)
        requires
            width * height <= usize::MAX,
        ensures
            r.wf(),
            r.width == width,
            r.height == height,
            forall|i: int| 0 <= i < r.grid@.len() ==> #[trigger] r.grid@[i] == color,
    {
        proof {
            assert(0 <= (width as int) * (height as int)) by (nonlinear_arith)
                requires
                    0 <= width as int,
                    0 <= height as int,
            ;
        }
        let total: usize = width * height;
        let mut grid: Vec<Color> = Vec::new();
        let mut i: usize = 0;
        while i < total
            invariant
                0 <= i <= total,
                grid@.len() == i,
                forall|k: int| 0 <= k < i ==> #[trigger] grid@[k] == color,
            decreases total - i,
        {
            grid.push(color);
            i = i + 1;
        }
        Canvas { width, height, grid }
    }

    /// Writes `color` at `(x, y)`.
    pub fn write(&mut self, x: usize, y: usize, color: Color)
        requires
            old(self).wf(),
            x < old(self).width,
            y < old(self).height,
        ensures
            final(self).wf(),
            final(self).width == old(self).width,
            final(self).height == old(self).height,
            final(self).grid@ == old(self).grid@.update(
                y * old(self).width + x,
                color,
            ),
    {
        let n: usize = self.grid.len();
        proof {
            assert((y as int) * (self.width as int) + (x as int) < (self.width as int) * (
            self.height as int)) by (nonlinear_arith)
                requires
                    0 <= (x as int) < (self.width as int),
                    0 <= (y as int) < (self.height as int),
            ;
            assert((y as int) * (self.width as int) + (x as int) < n as int);
        }
        let i: usize = y * self.width + x;
        self.grid[i] = color;
    }

    /// Like `write` but takes the flat row-major index directly.
    pub fn write_i(&mut self, i: usize, color: Color)
        requires
            i < old(self).grid@.len(),
        ensures
            final(self).width == old(self).width,
            final(self).height == old(self).height,
            final(self).grid@ == old(self).grid@.update(i as int, color),
    {
        self.grid[i] = color;
    }

    /// Gets the `Color` at `(x, y)`.
    pub fn get(&self, x: usize, y: usize) -> (r: Color)
        requires
            self.wf(),
            x < self.width,
            y < self.height,
        ensures
            r == self.grid@[y * self.width + x],
    {
        let n: usize = self.grid.len();
        proof {
            assert((y as int) * (self.width as int) + (x as int) < (self.width as int) * (
            self.height as int)) by (nonlinear_arith)
                requires
                    0 <= (x as int) < (self.width as int),
                    0 <= (y as int) < (self.height as int),
            ;
            assert((y as int) * (self.width as int) + (x as int) < n as int);
        }
        let i: usize = y * self.width + x;
        self.grid[i]
    }

    /// Like `get` but takes the flat row-major index directly.
    pub fn get_i(&self, i: usize) -> (r: Color)
        requires
            i < self.grid@.len(),
        ensures
            r == self.grid@[i as int],
    {
        self.grid[i]
    }
}

} // verus!
