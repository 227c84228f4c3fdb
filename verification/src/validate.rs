use vstd::prelude::*;

use crate::blueprint::TilingBlueprint;
use crate::error::{InvalidConfigError, MatmulAvailabilityError, MatmulSetupError};
use crate::resource::CubeDimResource;
use crate::routines::DeviceSettings;
use crate::specialization::InputLoadFlow;
use crate::tiling::spec_build_tiling_scheme;

verus! {

/// Whether the blueprint's specialization choice and the resource
/// request agree: a role-specialized pipeline needs a role-partitioned
/// resource with planes in both roles.
pub open spec fn spec_specialization_consistent(
    bp: TilingBlueprint,
    resource: CubeDimResource,
) -> bool {
    if bp.load_flows.lhs == InputLoadFlow::LoadOnly || bp.load_flows.rhs
        == InputLoadFlow::LoadOnly {
        match resource {
            CubeDimResource::Specialized(cfg) => cfg.counts.main_flow > 0 && cfg.counts.load_only
                > 0,
            _ => false,
        }
    } else {
        true
    }
}

/// The outcome of validating a blueprint against the problem and the
/// device snapshot, before any resource is requested from the device:
/// blocking-scheme invariants first, then specialization consistency,
/// then the derived work-group shape against the device unit ceiling.
pub open spec fn spec_validate(
    bp: TilingBlueprint,
    resource: CubeDimResource,
    ds: DeviceSettings,
) -> Result<(), MatmulSetupError> {
    if bp.plane_dim != ds.plane_dim {
        Err(
            MatmulSetupError::InvalidConfig(
                InvalidConfigError::PlaneDimMismatch {
                    expected: ds.plane_dim,
                    actual: bp.plane_dim,
                },
            ),
        )
    } else {
        let built = spec_build_tiling_scheme(
            bp.tiling_scheme.tile_size,
            bp.tiling_scheme.partition_size,
            bp.tiling_scheme.stage_size,
            ds.max_elements_per_stage,
        );
        if built is Err {
            Err(built->Err_0)
        } else if !spec_specialization_consistent(bp, resource) {
            Err(MatmulSetupError::InvalidConfig(InvalidConfigError::InvalidPlaneFlowPartition))
        } else {
            match resource.spec_as_plane_resource(ds.plane_dim) {
                Err(e) => Err(MatmulSetupError::InvalidConfig(e)),
                Ok(CubeDimResource::Planes(p)) => if ds.plane_dim * p
                    > ds.max_units_per_cube {
                    Err(
                        MatmulSetupError::Unavailable(
                            MatmulAvailabilityError::CubeDimTooBig {
                                x: ds.plane_dim,
                                y: p,
                                z: 1,
                                max_units: ds.max_units_per_cube,
                            },
                        ),
                    )
                } else {
                    Ok(())
                },
                Ok(_) => Err(
                    MatmulSetupError::InvalidConfig(InvalidConfigError::ZeroTilingDimension),
                ),  // unreachable
            }
        }
    }
}

/// Checks a candidate blueprint before it is allowed to be used:
/// blocking-scheme positivity and budget invariants, consistency of a
/// role-specialized pipeline with its plane partition, and the derived
/// work-group shape against the device's unit ceiling. Fails fast with
/// a descriptive error; a user-forced blueprint is never silently
/// clamped.
pub fn validate_blueprint(
    bp: &TilingBlueprint,
    resource: CubeDimResource,
    ds: &DeviceSettings,
) -> (r: Result<(), MatmulSetupError>)
    requires
        ds.wf(),
        resource.wf(),
    ensures
        r == spec_validate(*bp, resource, *ds),
{
    if bp.plane_dim != ds.plane_dim {
        return Err(
            MatmulSetupError::InvalidConfig(
                InvalidConfigError::PlaneDimMismatch {
                    expected: ds.plane_dim,
                    actual: bp.plane_dim,
                },
            ),
        );
    }
    let ts = bp.tiling_scheme;
    let built = crate::tiling::TilingScheme::builder().with_tile_size(ts.tile_size)
        .with_partition_size(ts.partition_size)
        .with_stage_size(ts.stage_size)
        .build(ds.max_elements_per_stage);
    if let Err(e) = built {
        return Err(e);
    }
    let specialized_ok = if bp.load_flows.has_specialization() {
        match resource {
            CubeDimResource::Specialized(cfg) => cfg.counts.main_flow > 0 && cfg.counts.load_only
                > 0,
            _ => false,
        }
    } else {
        true
    };
    if !specialized_ok {
        return Err(MatmulSetupError::InvalidConfig(InvalidConfigError::InvalidPlaneFlowPartition));
    }
    match resource.as_plane_resource(ds.plane_dim) {
        Err(e) => Err(MatmulSetupError::InvalidConfig(e)),
        Ok(CubeDimResource::Planes(p)) => {
            proof {
                assert((ds.plane_dim as int) * (p as int) <= 0xFFFF_FFFF_FFFF_FFFF)
                    by (nonlinear_arith)
                    requires
                        ds.plane_dim <= u32::MAX,
                        p <= u32::MAX,
                    ;
            }
            let units: u64 = (ds.plane_dim as u64) * (p as u64);
            if units > ds.max_units_per_cube as u64 {
                Err(
                    MatmulSetupError::Unavailable(
                        MatmulAvailabilityError::CubeDimTooBig {
                            x: ds.plane_dim,
                            y: p,
                            z: 1,
                            max_units: ds.max_units_per_cube,
                        },
                    ),
                )
            } else {
                Ok(())
            }
        },
        Ok(_) => Err(MatmulSetupError::InvalidConfig(InvalidConfigError::ZeroTilingDimension)),
    }
}

/// Validation is a pure function of the blueprint, the resource request
/// and the hardware snapshot: re-validating an already-validated
/// blueprint against the same problem and hardware always succeeds, and
/// validation has no side effects to accumulate between runs.
pub proof fn law_validate_idempotent(
    bp: TilingBlueprint,
    resource: CubeDimResource,
    ds: DeviceSettings,
)
    requires
        spec_validate(bp, resource, ds) is Ok,
    ensures
        spec_validate(bp, resource, ds) is Ok,
{
}

} // verus!
