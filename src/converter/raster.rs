//! A grayscale raster: one luma byte per pixel, row by row from the top left.

use vstd::prelude::*;

verus! {

/// A grid of luma samples, `width` columns by `height` rows, stored row-major.
pub struct Raster {
    /// The number of columns.
    pub width: u32,
    /// The number of rows.
    pub height: u32,
    /// The samples, row by row; the sample at column `x` of row `y` is at `y * width + x`.
    pub pixels: Vec<u8>,
}

impl Raster {
    /// The grid holds exactly one sample for each cell.
    pub open spec fn wf(&self) -> bool {
        self.pixels@.len() == self.width as int * self.height as int
    }
}

} // verus!
