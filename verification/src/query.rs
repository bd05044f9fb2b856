//! Query rectangles and result descriptors.
//!
//! A query rectangle — bounding box, time interval and spatial resolution —
//! is the sole addressing mechanism used to request a stream of tiles.  A
//! result descriptor carries the pixel type, spatial reference and
//! measurement of an initialized processor; operators that do not change
//! pixel semantics pass it through verbatim.

use vstd::prelude::*;

use crate::time::TimeInterval;

verus! {

/// A position in world coordinates, in integer world units.
#[derive(Clone, Copy, Debug, PartialEq, Eq, Structural)]
pub struct Coordinate2D {
    pub x: i64,
    pub y: i64,
}

/// An axis-aligned bounding box, given by its lower-left and upper-right
/// corner.
#[derive(Clone, Copy, Debug, PartialEq, Eq, Structural)]
pub struct BoundingBox2D {
    pub lower_left: Coordinate2D,
    pub upper_right: Coordinate2D,
}

impl BoundingBox2D {
    /// The lower-left corner lies at or below and left of the upper-right.
    pub open spec fn wf(self) -> bool {
        self.lower_left.x <= self.upper_right.x && self.lower_left.y <= self.upper_right.y
    }

    /// The extent of the box along the x axis.
    pub open spec fn size_x(self) -> int {
        self.upper_right.x - self.lower_left.x
    }

    /// The extent of the box along the y axis.
    pub open spec fn size_y(self) -> int {
        self.upper_right.y - self.lower_left.y
    }

    /// Builds a bounding box, rejecting corners in the wrong order.
    pub fn new(lower_left: Coordinate2D, upper_right: Coordinate2D) -> (r: Option<BoundingBox2D>)
        ensures
            r is Some <==> (lower_left.x <= upper_right.x && lower_left.y <= upper_right.y),
            r matches Some(b) ==> b == (BoundingBox2D { lower_left, upper_right }) && b.wf(),
    {
        if lower_left.x <= upper_right.x && lower_left.y <= upper_right.y {
            Some(BoundingBox2D { lower_left, upper_right })
        } else {
            None
        }
    }
}

/// World units per pixel in each axis.
#[derive(Clone, Copy, Debug, PartialEq, Eq, Structural)]
pub struct SpatialResolution {
    pub x: i64,
    pub y: i64,
}

impl SpatialResolution {
    /// Both pixel sizes are positive.
    pub open spec fn wf(self) -> bool {
        self.x > 0 && self.y > 0
    }

    /// Builds a resolution, rejecting non-positive pixel sizes.
    pub fn new(x: i64, y: i64) -> (r: Option<SpatialResolution>)
        ensures
            r is Some <==> (x > 0 && y > 0),
            r matches Some(s) ==> s == (SpatialResolution { x, y }) && s.wf(),
    {
        if x > 0 && y > 0 {
            Some(SpatialResolution { x, y })
        } else {
            None
        }
    }
}

/// A request for a stream of tiles: where, when, and at what resolution.
#[derive(Clone, Copy, Debug, PartialEq, Eq, Structural)]
pub struct QueryRectangle {
    pub bbox: BoundingBox2D,
    pub time_interval: TimeInterval,
    pub spatial_resolution: SpatialResolution,
}

/// The numeric pixel representations a typed processor can carry.
#[derive(Clone, Copy, Debug, PartialEq, Eq, Structural)]
pub enum RasterDataType {
    U8,
    U16,
    U32,
    U64,
    I8,
    I16,
    I32,
    I64,
    F32,
    F64,
}

/// The measurement semantics of a raster band.
#[derive(Clone, Copy, Debug, PartialEq, Eq, Structural)]
pub enum Measurement {
    Unitless,
    Continuous,
    Classification,
}

/// A spatial reference, named by its EPSG authority code.
#[derive(Clone, Copy, Debug, PartialEq, Eq, Structural)]
pub struct SpatialReference {
    pub epsg_code: u32,
}

/// Pixel type, spatial reference and measurement of an initialized
/// processor.  Operators that do not change pixel semantics — all operators
/// of this library — propagate it unchanged from their single input.
#[derive(Clone, Copy, Debug, PartialEq, Eq, Structural)]
pub struct RasterResultDescriptor {
    pub data_type: RasterDataType,
    pub spatial_reference: SpatialReference,
    pub measurement: Measurement,
}

} // verus!
