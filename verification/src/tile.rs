//! Tiles: the unit of transport through all streams.
//!
//! A tile is a grid plus the time interval it is valid for, its position in
//! the global tiling scheme, and the geo-transform that maps its pixel
//! coordinates to world coordinates.

use vstd::prelude::*;

use crate::grid::Grid;
use crate::pixel::Pixel;
use crate::time::TimeInterval;

verus! {

/// The row/column index of a tile in a global tiling scheme.
#[derive(Clone, Copy, Debug, PartialEq, Eq, Structural)]
pub struct TilePosition {
    pub x: i64,
    pub y: i64,
}

/// Mapping from pixel coordinates to world coordinates: the world position
/// of the upper-left corner and the world size of one pixel per axis.
/// World units are integers; the y pixel size is negative for the usual
/// top-down row order.
#[derive(Clone, Copy, Debug, PartialEq, Eq, Structural)]
pub struct GeoTransform {
    pub origin_x: i64,
    pub origin_y: i64,
    pub pixel_size_x: i64,
    pub pixel_size_y: i64,
}

/// A rectangular chunk of raster data tagged with time, position, and
/// geo-transform.
#[derive(Debug)]
pub struct Tile<P> {
    pub time: TimeInterval,
    pub position: TilePosition,
    pub geo_transform: GeoTransform,
    pub grid: Grid<P>,
}

/// The spatial and temporal metadata of `a` and `b` agree: same time
/// interval, tile position, geo-transform, shape and no-data sentinel.
/// A per-tile transform changes only the grid contents, so it preserves
/// this relation between its input and its output.
pub open spec fn metadata_matches<P: Pixel>(a: Tile<P>, b: Tile<P>) -> bool {
    &&& a.time == b.time
    &&& a.position == b.position
    &&& a.geo_transform == b.geo_transform
    &&& a.grid.shape == b.grid.shape
    &&& a.grid.no_data_val() == b.grid.no_data_val()
}

/// The mathematical content of a tile, independent of the pixel
/// representation: its metadata and its cell values as integers.
pub struct TileModel {
    pub time: TimeInterval,
    pub position: TilePosition,
    pub geo_transform: GeoTransform,
    pub shape: crate::grid::GridShape,
    pub no_data: Option<int>,
    pub values: Seq<int>,
}

/// The model of a tile.
pub open spec fn model_of<P: Pixel>(t: Tile<P>) -> TileModel {
    TileModel {
        time: t.time,
        position: t.position,
        geo_transform: t.geo_transform,
        shape: t.grid.shape,
        no_data: t.grid.no_data_val(),
        values: t.grid.values(),
    }
}

impl<P: Pixel> Tile<P> {
    /// The grid matches its shape and the time interval is ordered.
    pub open spec fn wf(self) -> bool {
        self.grid.wf() && self.time.wf()
    }

    /// An exact copy of this tile.
    pub fn duplicate(&self) -> (r: Tile<P>)
        ensures
            metadata_matches(r, *self),
            r.grid.values() =~= self.grid.values(),
            r.grid.no_data == self.grid.no_data,
            r.wf() == self.wf(),
    {
        let mut data: Vec<P> = Vec::new();
        let n = self.grid.data.len();
        let mut k: usize = 0;
        while k < n
            invariant
                k <= n,
                n == self.grid.data@.len(),
                data@.len() == k,
                forall|i: int| 0 <= i < k ==> data@[i] == self.grid.data@[i],
            decreases n - k,
        {
            data.push(self.grid.data[k]);
            k = k + 1;
        }
        let r = Tile {
            time: self.time,
            position: self.position,
            geo_transform: self.geo_transform,
            grid: Grid { shape: self.grid.shape, data, no_data: self.grid.no_data },
        };
        proof {
            assert(r.grid.data@ =~= self.grid.data@);
            assert(r.grid.values() =~= self.grid.values());
        }
        r
    }

    /// A model-faithful copy of every tile of a stream, in order.
    pub fn duplicate_stream(tiles: &Vec<Tile<P>>) -> (r: Vec<Tile<P>>)
        ensures
            r@.len() == tiles@.len(),
            forall|i: int| 0 <= i < tiles@.len() ==> model_of(#[trigger] r@[i]) == model_of(
                tiles@[i],
            ),
            forall|i: int| 0 <= i < tiles@.len() ==> (#[trigger] r@[i]).wf() == tiles@[i].wf(),
    {
        let mut out: Vec<Tile<P>> = Vec::new();
        let n = tiles.len();
        let mut k: usize = 0;
        while k < n
            invariant
                k <= n,
                n == tiles@.len(),
                out@.len() == k,
                forall|i: int| 0 <= i < k ==> model_of(#[trigger] out@[i]) == model_of(tiles@[i]),
                forall|i: int| 0 <= i < k ==> (#[trigger] out@[i]).wf() == tiles@[i].wf(),
            decreases n - k,
        {
            let t = tiles[k].duplicate();
            proof {
                assert(model_of(t) == model_of(tiles@[k as int]));
            }
            out.push(t);
            k = k + 1;
        }
        out
    }

    /// Value-wise tile equality: same metadata and the same grid values.
    pub fn eq_tile(&self, other: &Tile<P>) -> (r: bool)
        ensures
            r == (metadata_matches(*self, *other) && self.grid.values() =~= other.grid.values()),
    {
        if self.time != other.time {
            return false;
        }
        if self.position != other.position {
            return false;
        }
        if self.geo_transform != other.geo_transform {
            return false;
        }
        self.grid.eq_grid(&other.grid)
    }
}

} // verus!
