//! The error kinds of the pipeline.
//!
//! Arity and shape errors are raised at initialization or construction time
//! and abort the whole operator tree build.  Geometry, upstream and
//! compute-engine errors arise at stream time and abort the current stream
//! at the point of failure.

use vstd::prelude::*;

verus! {

/// Everything that can go wrong in the pipeline's own logic.
#[derive(Clone, Copy, Debug, PartialEq, Eq, Structural)]
pub enum Error {
    /// An operator was built with the wrong number of raster input sources.
    /// Carries the half-open range of accepted counts and the count found.
    InvalidNumberOfRasterInputs { expected_min: usize, expected_max: usize, found: usize },
    /// An operator was built with the wrong number of vector input sources.
    /// Carries the half-open range of accepted counts and the count found.
    InvalidNumberOfVectorInputs { expected_min: usize, expected_max: usize, found: usize },
    /// A grid's data length does not match its declared shape, or the two
    /// tiles of a paired transform disagree in shape.  Carries the cell
    /// count the shape calls for and the length found.
    Shape { expected: usize, found: usize },
    /// A tile's projection onto an output grid is invalid: the resolutions
    /// disagree, the origins are not aligned to the pixel raster, or a
    /// coordinate cannot be represented.
    Geometry,
    /// An error produced by a source or by an earlier transform stage,
    /// forwarded unchanged.
    Upstream,
    /// The compute-engine boundary returned malformed data: a buffer of the
    /// wrong length, or a value outside the pixel representation's range.
    ComputeEngine,
}

impl Error {
    /// A short name for the error kind, for reporting outside the library.
    pub fn kind_name(&self) -> String {
        match self {
            Error::InvalidNumberOfRasterInputs { .. } => "InvalidNumberOfRasterInputsError".to_string(),
            Error::InvalidNumberOfVectorInputs { .. } => "InvalidNumberOfVectorInputsError".to_string(),
            Error::Shape { .. } => "ShapeError".to_string(),
            Error::Geometry => "GeometryError".to_string(),
            Error::Upstream => "UpstreamError".to_string(),
            Error::ComputeEngine => "ComputeEngineError".to_string(),
        }
    }
}

} // verus!
