use vstd::prelude::*;

use crate::blueprint::TilingBlueprint;
use crate::cube_count::{CubeCountPlan, spec_m_cubes, spec_n_cubes, spec_resolve_cube_count};
use crate::dtypes::{MatmulElems, MatmulGlobalElems, spec_cast_stage_dtypes};
use crate::error::{InvalidConfigError, MatmulSetupError};
use crate::problem::MatmulProblem;
use crate::resource::CubeDimResource;
use crate::routines::selector::{
    PartitionScaling, StageScaling, TileSizeSelection, UnitTilingBlueprintOptions,
    infer_blueprint_unit, spec_infer_blueprint_unit,
};
use crate::routines::{BlueprintStrategy, DeviceSettings, LaunchInfo};
use crate::tiling::lemma_build_ok_wf;
use crate::validate::{spec_validate, validate_blueprint};

verus! {

/// Hints for the unit family: which tile size to prefer; everything
/// else is derived from it.
#[derive(Clone, Copy, Debug, PartialEq, Eq, Hash, Structural)]
pub struct SimpleUnitSelectionArgs {
    pub tile_size: TileSizeSelection,
}

impl Default for SimpleUnitSelectionArgs {
    fn default() -> (r: Self)
        ensures
            r == (SimpleUnitSelectionArgs { tile_size: TileSizeSelection::MinTileSize }),
    {
        SimpleUnitSelectionArgs { tile_size: TileSizeSelection::MinTileSize }
    }
}

/// The element types the unit family computes with: the register tile
/// matmul can cast its stage elements.
pub open spec fn spec_unit_dtypes(g: MatmulGlobalElems) -> MatmulElems {
    spec_cast_stage_dtypes(g)
}

/// The scaling decisions the tile-size hint expands into: a small tile
/// is compensated with a scaled-up stage, a large tile with a widened
/// per-unit partition.
pub open spec fn spec_unit_options(args: SimpleUnitSelectionArgs) -> UnitTilingBlueprintOptions {
    UnitTilingBlueprintOptions {
        tile: args.tile_size,
        stage: match args.tile_size {
            TileSizeSelection::MinTileSize => StageScaling::Enabled(2),
            TileSizeSelection::MaxTileSize => StageScaling::Disabled,
        },
        partition: match args.tile_size {
            TileSizeSelection::MinTileSize => PartitionScaling::Disabled,
            TileSizeSelection::MaxTileSize => PartitionScaling::Enabled,
        },
        swizzle: false,
    }
}

/// The blueprint the strategy yields: a forced blueprint as it stands,
/// otherwise the one inferred from the hints.
pub open spec fn spec_unit_blueprint(
    problem: MatmulProblem,
    ds: DeviceSettings,
    strategy: BlueprintStrategy<SimpleUnitSelectionArgs>,
) -> Result<TilingBlueprint, MatmulSetupError> {
    match strategy {
        BlueprintStrategy::Forced(bp) => Ok(bp),
        BlueprintStrategy::Inferred(args) => spec_infer_blueprint_unit(
            problem,
            ds.plane_dim,
            ds.max_elements_per_stage,
            spec_unit_options(args),
        ),
    }
}

/// The full outcome of preparing the unit family: the blueprint, the
/// launch-grid plan and the plane count, or the first error on the way
/// there. The unit family asks for one unit per (m, n) stage position.
pub open spec fn spec_prepare_simple_unit(
    problem: MatmulProblem,
    ds: DeviceSettings,
    strategy: BlueprintStrategy<SimpleUnitSelectionArgs>,
) -> Result<(TilingBlueprint, CubeCountPlan, u32), MatmulSetupError> {
    match spec_unit_blueprint(problem, ds, strategy) {
        Err(e) => Err(e),
        Ok(bp) => {
            let units = bp.tiling_scheme.stage_size.m * bp.tiling_scheme.stage_size.n;
            if units > u32::MAX {
                Err(MatmulSetupError::InvalidConfig(InvalidConfigError::UnitCountOverflow))
            } else {
                let res = CubeDimResource::Units(units as u32);
                match spec_validate(bp, res, ds) {
                    Err(e) => Err(e),
                    Ok(_) => {
                        let plan = spec_resolve_cube_count(
                            bp.hypercube_blueprint.cube_count_strategy,
                            spec_m_cubes(problem, bp.tiling_scheme),
                            spec_n_cubes(problem, bp.tiling_scheme),
                            problem.batch as int,
                            ds.max_cube_count.0 as int,
                            ds.max_cube_count.1 as int,
                            ds.max_cube_count.2 as int,
                        );
                        match plan {
                            Err(e) => Err(e),
                            Ok(p) => {
                                match res.spec_num_planes(ds.plane_dim) {
                                    Ok(planes) => Ok((bp, p, planes)),
                                    Err(e) => Err(MatmulSetupError::InvalidConfig(e)),
                                }
                            },
                        }
                    },
                }
            }
        },
    }
}

/// Unit single-stage matmul: each scalar unit computes one partition of
/// the output stage on its own.
pub struct SimpleUnitAlgorithm {}

impl SimpleUnitAlgorithm {
    /// Resolves a validated launch of the unit family from the problem,
    /// the device snapshot, and a forced blueprint or inference hints.
    /// Succeeds exactly when the blueprint resolves, passes validation,
    /// and the grid plan fits the device.
    pub fn prepare(
        problem: &MatmulProblem,
        device_settings: &DeviceSettings,
        strategy: &BlueprintStrategy<SimpleUnitSelectionArgs>,
    ) -> (r: Result<LaunchInfo, MatmulSetupError>)
        requires
            device_settings.wf(),
            0 < problem.m,
            0 < problem.n,
            0 < problem.batch,
        ensures
            ({
                let s = spec_prepare_simple_unit(*problem, *device_settings, *strategy);
                match r {
                    Ok(info) => s matches Ok((bp, plan, planes)) && {
                        &&& info.blueprint == bp
                        &&& info.dtypes == spec_unit_dtypes(problem.global_dtypes)
                        &&& info.cube_count_plan == plan
                        &&& info.cube_dim.x == device_settings.plane_dim
                        &&& info.cube_dim.y == planes
                        &&& info.cube_dim.z == 1
                    },
                    Err(e) => s matches Err(e2) && e == e2,
                }
            }),
    {
        let mut dtypes = MatmulElems::from_globals(&problem.global_dtypes);
        // The register tile matmul can cast stage elements.
        dtypes.adjust_stage_dtypes();
        proof {
            assert(dtypes == spec_unit_dtypes(problem.global_dtypes));
        }
        let blueprint = match strategy {
            BlueprintStrategy::Forced(bp) => *bp,
            BlueprintStrategy::Inferred(args) => {
                let options = UnitTilingBlueprintOptions {
                    tile: args.tile_size,
                    stage: match args.tile_size {
                        TileSizeSelection::MinTileSize => StageScaling::Enabled(2),
                        TileSizeSelection::MaxTileSize => StageScaling::Disabled,
                    },
                    partition: match args.tile_size {
                        TileSizeSelection::MinTileSize => PartitionScaling::Disabled,
                        TileSizeSelection::MaxTileSize => PartitionScaling::Enabled,
                    },
                    swizzle: false,
                };
                match infer_blueprint_unit(
                    problem,
                    device_settings.plane_dim,
                    device_settings.max_elements_per_stage,
                    options,
                ) {
                    Ok(bp) => bp,
                    Err(e) => {
                        return Err(e);
                    },
                }
            },
        };
        let sm = blueprint.tiling_scheme.stage_size.m;
        let sn = blueprint.tiling_scheme.stage_size.n;
        proof {
            assert((sm as int) * (sn as int) <= 0xFFFF_FFFF_FFFF_FFFF) by (nonlinear_arith)
                requires
                    sm <= u32::MAX,
                    sn <= u32::MAX,
                ;
        }
        let units64: u64 = (sm as u64) * (sn as u64);
        if units64 > u32::MAX as u64 {
            return Err(MatmulSetupError::InvalidConfig(InvalidConfigError::UnitCountOverflow));
        }
        let resource = CubeDimResource::Units(units64 as u32);
        if let Err(e) = validate_blueprint(&blueprint, resource, device_settings) {
            return Err(e);
        }
        proof {
            lemma_build_ok_wf(
                blueprint.tiling_scheme.tile_size,
                blueprint.tiling_scheme.partition_size,
                blueprint.tiling_scheme.stage_size,
                device_settings.max_elements_per_stage,
            );
        }
        LaunchInfo::new(blueprint, dtypes, problem, resource, device_settings)
    }
}

} // verus!
