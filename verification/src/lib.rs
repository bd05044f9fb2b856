//! A small verified pipeline for streaming geospatial raster data:
//! grids of pixels with a no-data sentinel, tiles carrying spatial and
//! temporal metadata, typed query processors, operator initialization,
//! stream transforms and pairing, and a tile compositor.

pub mod compositor;
pub mod error;
pub mod grid;
pub mod operator;
pub mod pixel;
pub mod processor;
pub mod protocol;
pub mod query;
pub mod stream;
pub mod tile;
pub mod time;
pub mod typed;

use vstd::prelude::*;

verus! {

/// Row-major index of a cell in a grid with `cols` columns.
pub open spec fn cell_index(row: int, col: int, cols: int) -> int {
    row * cols + col
}

} // verus!
