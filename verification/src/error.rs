//! Why a configuration is refused.

use vstd::prelude::*;

verus! {

/// A configuration that generation cannot start from.
#[derive(Clone, Copy, Debug, PartialEq, Eq, Structural)]
pub enum ConfigError {
    /// A pool of the asset catalog has no variant.
    EmptyAssetPool,
    /// A road segment whose ends are the same point.
    DegenerateSegment,
    /// A road segment that runs along none of the three axes.
    ObliqueSegment,
    /// A grid beyond the largest radius that the counters can hold.
    GridTooLarge,
    /// The noise samples are not one for each block of the grid.
    NoiseSampleCount,
}

} // verus!
