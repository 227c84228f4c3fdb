use vstd::prelude::*;

use crate::error::{InvalidConfigError, MatmulAvailabilityError, MatmulSetupError};
use crate::specialization::PlaneFlowConfig;

verus! {

/// The launch work-group shape of the accelerator runtime: number of
/// units along each of its three axes. All fields are public `u32`s, so
/// contracts can speak of them directly.
#[verifier::external_type_specification]
pub struct ExCubeDim(cubecl::CubeDim);

/// Relies on `cubecl::CubeDim::new_2d`, which builds the shape
/// `{ x, y, z: 1 }`.
pub assume_specification [ cubecl::CubeDim::new_2d ](x: u32, y: u32) -> (r: cubecl::CubeDim)
    ensures
        r.x == x,
        r.y == y,
        r.z == 1,
;

/// Number of compute primitives some component requires, as either
/// independent units, whole planes, or a role-partitioned plane
/// assignment for specialized pipelines.
#[derive(Clone, Copy, Debug, PartialEq, Eq, Structural)]
pub enum CubeDimResource {
    Units(u32),
    Planes(u32),
    Specialized(PlaneFlowConfig),
}

impl CubeDimResource {
    /// A specialized request must have plane counts whose total fits in
    /// a `u32`.
    pub open spec fn wf(&self) -> bool {
        match self {
            CubeDimResource::Specialized(cfg) => cfg.wf(),
            _ => true,
        }
    }

    /// The outcome of resolving this request to whole planes.
    pub open spec fn spec_as_plane_resource(self, plane_dim: u32) -> Result<
        CubeDimResource,
        InvalidConfigError,
    > {
        match self {
            CubeDimResource::Units(units) => if units % plane_dim == 0 {
                Ok(CubeDimResource::Planes((units / plane_dim) as u32))
            } else {
                Err(InvalidConfigError::UnitsNotDivisibleByPlaneDim { units, plane_dim })
            },
            CubeDimResource::Planes(_) => Ok(self),
            CubeDimResource::Specialized(cfg) => Ok(
                CubeDimResource::Planes((cfg.counts.main_flow + cfg.counts.load_only) as u32),
            ),
        }
    }

    /// Resolves to the `Planes` variant, converting units with
    /// `plane_dim`, the number of units in a plane. A unit count that
    /// does not correspond to a whole number of planes is a hard
    /// validation error, never silently rounded. Resolving an
    /// already-resolved `Planes` value yields the same value.
    pub fn as_plane_resource(self, plane_dim: u32) -> (r: Result<
        CubeDimResource,
        InvalidConfigError,
    >)
        requires
            plane_dim > 0,
            self.wf(),
        ensures
            r == self.spec_as_plane_resource(plane_dim),
            r matches Ok(p) ==> p is Planes,
    {
        match self {
            CubeDimResource::Units(units) => {
                if units % plane_dim == 0 {
                    Ok(CubeDimResource::Planes(units / plane_dim))
                } else {
                    Err(InvalidConfigError::UnitsNotDivisibleByPlaneDim { units, plane_dim })
                }
            },
            CubeDimResource::Planes(_) => Ok(self),
            CubeDimResource::Specialized(plane_flow_config) => Ok(
                CubeDimResource::Planes(plane_flow_config.counts.total_count()),
            ),
        }
    }

    /// The number of planes this request resolves to, if it resolves.
    pub open spec fn spec_num_planes(self, plane_dim: u32) -> Result<u32, InvalidConfigError> {
        match self.spec_as_plane_resource(plane_dim) {
            Ok(CubeDimResource::Planes(n)) => Ok(n),
            Ok(_) => Err(InvalidConfigError::ZeroTilingDimension),  // unreachable
            Err(e) => Err(e),
        }
    }

    /// Makes a work-group shape from this request. The obtained shape is
    /// always `(plane_dim, number_of_planes, 1)`.
    pub fn to_cube_dim(self, plane_dim: u32) -> (r: Result<cubecl::CubeDim, InvalidConfigError>)
        requires
            plane_dim > 0,
            self.wf(),
        ensures
            match (r, self.spec_num_planes(plane_dim)) {
                (Ok(dim), Ok(n)) => dim.x == plane_dim && dim.y == n && dim.z == 1,
                (Err(e1), Err(e2)) => e1 == e2,
                _ => false,
            },
    {
        match self.as_plane_resource(plane_dim)? {
            CubeDimResource::Planes(num_planes) => Ok(cubecl::CubeDim::new_2d(
                plane_dim,
                num_planes,
            )),
            _ => Err(InvalidConfigError::ZeroTilingDimension),  // unreachable
        }
    }

    /// The number of planes this request resolves to.
    pub fn num_planes(self, plane_dim: u32) -> (r: Result<u32, InvalidConfigError>)
        requires
            plane_dim > 0,
            self.wf(),
        ensures
            r == self.spec_num_planes(plane_dim),
    {
        match self.as_plane_resource(plane_dim)? {
            CubeDimResource::Planes(num_planes) => Ok(num_planes),
            _ => Err(InvalidConfigError::ZeroTilingDimension),  // unreachable
        }
    }

    /// Resolves this request to a full plane flow config: an explicit
    /// `Specialized` assignment passes through, anything else becomes an
    /// unspecialized config over the resolved plane count.
    pub fn as_plane_flow_config(self, plane_dim: u32) -> (r: Result<
        PlaneFlowConfig,
        InvalidConfigError,
    >)
        requires
            plane_dim > 0,
            self.wf(),
        ensures
            match self {
                CubeDimResource::Specialized(cfg) => r == Ok::<
                    PlaneFlowConfig,
                    InvalidConfigError,
                >(cfg),
                _ => match (r, self.spec_num_planes(plane_dim)) {
                    (Ok(cfg), Ok(n)) => cfg == PlaneFlowConfig::spec_unspecialized(n),
                    (Err(e1), Err(e2)) => e1 == e2,
                    _ => false,
                },
            },
    {
        match self {
            CubeDimResource::Specialized(plane_flow_config) => Ok(plane_flow_config),
            _ => {
                match self.as_plane_resource(plane_dim)? {
                    CubeDimResource::Planes(num_planes) => Ok(
                        PlaneFlowConfig::new_unspecialized(num_planes),
                    ),
                    _ => Err(InvalidConfigError::ZeroTilingDimension),  // unreachable
                }
            },
        }
    }
}

/// Rejects a work-group shape that holds more units than the device
/// allows in one work-group.
pub fn cube_dim_validation(cube_dim: &cubecl::CubeDim, max_units_per_cube: u32) -> (r: Result<
    (),
    MatmulSetupError,
>)
    ensures
        r matches Ok(()) <==> cube_dim.x * cube_dim.y * cube_dim.z <= max_units_per_cube,
        r matches Err(e) ==> e == MatmulSetupError::Unavailable(
            MatmulAvailabilityError::CubeDimTooBig {
                x: cube_dim.x,
                y: cube_dim.y,
                z: cube_dim.z,
                max_units: max_units_per_cube,
            },
        ),
{
    proof {
        assert((cube_dim.x as int) * (cube_dim.y as int) <= 0xFFFF_FFFF_FFFF_FFFF) by (nonlinear_arith)
            requires
                cube_dim.x <= u32::MAX,
                cube_dim.y <= u32::MAX,
            ;
        assert((cube_dim.x as int) * (cube_dim.y as int) * (cube_dim.z as int)
            < 0x1_0000_0000_0000_0000_0000_0000) by (nonlinear_arith)
            requires
                cube_dim.x <= u32::MAX,
                cube_dim.y <= u32::MAX,
                cube_dim.z <= u32::MAX,
            ;
    }
    let units: u128 = (cube_dim.x as u128) * (cube_dim.y as u128) * (cube_dim.z as u128);
    if units <= max_units_per_cube as u128 {
        Ok(())
    } else {
        Err(
            MatmulSetupError::Unavailable(
                MatmulAvailabilityError::CubeDimTooBig {
                    x: cube_dim.x,
                    y: cube_dim.y,
                    z: cube_dim.z,
                    max_units: max_units_per_cube,
                },
            ),
        )
    }
}

/// Maximal number of planes each global reader can use while still
/// dividing its workload evenly, one bound per input operand. The bounds
/// themselves come from the loading strategies in use.
#[derive(Clone, Copy, Debug, PartialEq, Eq, Hash, Structural)]
pub struct MaxGlobalReaderPlanes {
    pub lhs: u32,
    pub rhs: u32,
}

impl MaxGlobalReaderPlanes {
    pub fn new(lhs: u32, rhs: u32) -> (r: MaxGlobalReaderPlanes)
        ensures
            r == (MaxGlobalReaderPlanes { lhs, rhs }),
    {
        MaxGlobalReaderPlanes { lhs, rhs }
    }
}

} // verus!
