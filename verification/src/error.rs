use vstd::prelude::*;

verus! {

/// A blueprint is self-contradictory or breaks a hardware-independent
/// invariant. Such an error is a configuration bug and is never retried.
#[derive(Clone, Copy, Debug, PartialEq, Eq, Hash, Structural)]
pub enum InvalidConfigError {
    /// A tile, partition or stage size has a zero component.
    ZeroTilingDimension,
    /// The per-work-group element count along some axis exceeds the
    /// caller-supplied budget.
    StageBudgetExceeded,
    /// A unit count does not correspond to a whole number of planes.
    UnitsNotDivisibleByPlaneDim { units: u32, plane_dim: u32 },
    /// A specialized plane partition does not account for every plane,
    /// or one of its roles is empty.
    InvalidPlaneFlowPartition,
    /// The blueprint was made for a different plane width than the
    /// device reports.
    PlaneDimMismatch { expected: u32, actual: u32 },
    /// The number of units a family asks for does not fit in a `u32`.
    UnitCountOverflow,
}

/// The blueprint is internally consistent but this hardware cannot run it.
/// This is the only kind an orchestrating caller may catch to fall back to
/// a simpler algorithm family.
#[derive(Clone, Copy, Debug, PartialEq, Eq, Hash, Structural)]
pub enum MatmulAvailabilityError {
    /// The work-group shape holds more units than the device allows.
    CubeDimTooBig { x: u32, y: u32, z: u32, max_units: u32 },
    /// No grid shape under the device per-axis maxima covers the work.
    CubeCountTooBig { max_x: u32, max_y: u32, max_z: u32 },
}

/// Everything that can go wrong while resolving an execution blueprint.
#[derive(Clone, Copy, Debug, PartialEq, Eq, Hash, Structural)]
pub enum MatmulSetupError {
    InvalidConfig(InvalidConfigError),
    Unavailable(MatmulAvailabilityError),
}

impl MatmulSetupError {
    /// Whether an orchestrating caller may retry with a simpler family.
    pub fn is_unavailable(&self) -> (r: bool)
        ensures
            r == (self is Unavailable),
    {
        match self {
            MatmulSetupError::Unavailable(_) => true,
            MatmulSetupError::InvalidConfig(_) => false,
        }
    }
}

} // verus!
