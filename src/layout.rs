use vstd::prelude::*;

verus! {

/// Arrangement of subplots in a grid of `height` rows and `width` columns.
pub struct Layout {
    pub height: usize,
    pub width: usize,
}

impl Layout {
    pub fn new(width: usize, height: usize) -> (r: Layout)
        ensures
            r.width == width,
            r.height == height,
    {
        Layout { height, width }
    }

    /// The grid as (rows, columns).
    pub fn get_plotter_layout(&self) -> (r: (usize, usize))
        ensures
            r == (self.height, self.width),
    {
        (self.height, self.width)
    }

    /// Number of cells in the grid.
    pub fn get_nb_of_subplots(&self) -> (r: usize)
        requires
            self.height * self.width <= usize::MAX,
        ensures
            r == self.height * self.width,
    {
        self.height * self.width
    }
}

} // verus!
