//! The failures a reduction can surface.

use vstd::prelude::*;

verus! {

/// Why a reduction produced no rectangle.
///
/// No rectangle represents an empty extent, and a feature without a geometry
/// has no extent at all, so both conditions are failures rather than
/// degenerate rectangles. They abort the whole computation; the caller maps
/// each variant to a message and an exit status.
#[derive(Clone, Copy, Debug, PartialEq, Eq, Structural)]
pub enum BboxError {
    /// A sequence that had to be reduced was empty.
    EmptyGeometry,
    /// A feature was reduced but carries no geometry.
    MissingGeometry,
}

} // verus!
