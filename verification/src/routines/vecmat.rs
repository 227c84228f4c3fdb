use vstd::prelude::*;

use crate::blueprint::{
    LoadingPrecomputeStrategy, PartitionBuffering, ReaderMode, SwizzleModes, TilingBlueprint,
    spec_check_bounds,
};
use crate::cube_count::{
    CubeCountPlan, CubeCountStrategy, SmAllocation, spec_m_cubes, spec_n_cubes,
    spec_resolve_cube_count,
};
use crate::dtypes::{MatmulElems, MatmulGlobalElems, spec_cast_stage_dtypes};
use crate::error::{InvalidConfigError, MatmulSetupError};
use crate::global_order::{GlobalOrder, GlobalOrderStrategy, spec_div_ceil};
use crate::hypercube::HypercubeBlueprint;
use crate::problem::{MatmulLineSizes, MatmulProblem};
use crate::resource::CubeDimResource;
use crate::routines::{BlueprintStrategy, DeviceSettings, LaunchInfo};
use crate::specialization::{InputLoadFlow, LoadFlows};
use crate::tiling::{
    PartitionSize, StageSize, TileSize, TilingScheme, lemma_build_ok_wf, spec_build_tiling_scheme,
};
use crate::validate::{spec_validate, validate_blueprint};

verus! {

/// The vector-matrix family takes no extra hints: everything is derived
/// from the problem and the device snapshot.
#[derive(Clone, Copy, Debug, PartialEq, Eq, Hash, Structural)]
pub struct VecMatStrategy {}

impl Default for VecMatStrategy {
    fn default() -> (r: Self)
        ensures
            r == (VecMatStrategy {  }),
    {
        VecMatStrategy {}
    }
}

/// The element types the vector-matrix family computes with: its plane
/// inner-product tile matmul can cast stage elements.
pub open spec fn spec_vecmat_dtypes(g: MatmulGlobalElems) -> MatmulElems {
    spec_cast_stage_dtypes(g)
}

/// The fold width the vector-matrix family swizzles m-block rows with.
pub open spec fn spec_vecmat_swizzle_width() -> int {
    2
}

/// The blueprint the vector-matrix family infers: one output line per
/// plane (tile 1 x out-line x plane-width-of-lhs-lines), a single
/// partition and stage, an m-row swizzle of width two, and an SM-aware
/// grid when the device reports an SM count.
pub open spec fn spec_infer_blueprint_vecmat(
    problem: MatmulProblem,
    plane_dim: u32,
    line_sizes: MatmulLineSizes,
    num_sms: Option<u32>,
    budget: u32,
) -> Result<TilingBlueprint, MatmulSetupError> {
    if plane_dim * line_sizes.lhs > u32::MAX {
        Err(MatmulSetupError::InvalidConfig(InvalidConfigError::StageBudgetExceeded))
    } else {
        let tile = TileSize {
            m: 1,
            n: line_sizes.out as u32,
            k: (plane_dim * line_sizes.lhs) as u32,
        };
        let partition = PartitionSize { m: 1, n: 1, k: 1 };
        let stage = StageSize { m: 1, n: 1, k: 1 };
        match spec_build_tiling_scheme(tile, partition, stage, budget) {
            Err(e) => Err(e),
            Ok(ts) => {
                let rows = spec_div_ceil(problem.m as int, ts.spec_elements_per_stage_m());
                let order = if rows % spec_vecmat_swizzle_width() == 0 {
                    GlobalOrder::SwizzleRowMajor(2)
                } else {
                    GlobalOrder::RowMajor
                };
                let ccs = match num_sms {
                    Some(n) => CubeCountStrategy::Sm {
                        cubes_first: true,
                        num_sms: n,
                        sm_usage: SmAllocation::Exact,
                    },
                    None => CubeCountStrategy::FromProblem,
                };
                Ok(spec_assemble_vecmat_blueprint(problem, plane_dim, ts, order, ccs))
            },
        }
    }
}

/// The blueprint the vector-matrix family assembles around its scheme:
/// defaults everywhere, the problem's layouts, bounds checks where the
/// problem does not divide evenly, and the given grid mapping.
pub open spec fn spec_assemble_vecmat_blueprint(
    problem: MatmulProblem,
    plane_dim: u32,
    ts: TilingScheme,
    order: GlobalOrder,
    ccs: CubeCountStrategy,
) -> TilingBlueprint {
    TilingBlueprint {
        plane_dim,
        tiling_scheme: ts,
        swizzle_modes: SwizzleModes::spec_default(),
        partition_buffering: PartitionBuffering::Single,
        loading_precompute_strategy: LoadingPrecomputeStrategy::Never,
        reader_mode: ReaderMode::Strict,
        load_flows: LoadFlows { lhs: InputLoadFlow::MainOnly, rhs: InputLoadFlow::MainOnly },
        hypercube_blueprint: HypercubeBlueprint { global_order: order, cube_count_strategy: ccs },
        lhs_layout: problem.lhs_layout,
        rhs_layout: problem.rhs_layout,
        check_m_bounds: spec_check_bounds(problem.m as int, ts.spec_elements_per_stage_m()),
        check_n_bounds: spec_check_bounds(problem.n as int, ts.spec_elements_per_stage_n()),
        check_k_bounds: spec_check_bounds(problem.k as int, ts.spec_elements_per_stage_k()),
    }
}

/// Infers the vector-matrix blueprint from the problem and the device
/// snapshot.
pub fn infer_blueprint_vecmat(
    problem: &MatmulProblem,
    plane_dim: u32,
    line_sizes: MatmulLineSizes,
    num_sms: Option<u32>,
    budget: u32,
) -> (r: Result<TilingBlueprint, MatmulSetupError>)
    requires
        0 < plane_dim,
    ensures
        r == spec_infer_blueprint_vecmat(*problem, plane_dim, line_sizes, num_sms, budget),
        r matches Ok(bp) ==> bp.tiling_scheme.wf() && bp.plane_dim == plane_dim,
{
    proof {
        assert((plane_dim as int) * (line_sizes.lhs as int) <= 0xFFFF_FFFF_FFFF_FFFF)
            by (nonlinear_arith)
            requires
                plane_dim <= u32::MAX,
                line_sizes.lhs <= u8::MAX,
            ;
    }
    let tk64: u64 = (plane_dim as u64) * (line_sizes.lhs as u64);
    if tk64 > u32::MAX as u64 {
        return Err(MatmulSetupError::InvalidConfig(InvalidConfigError::StageBudgetExceeded));
    }
    let tile = TileSize { m: 1, n: line_sizes.out as u32, k: tk64 as u32 };
    let built = TilingScheme::builder().with_tile_size(tile)
        .with_partition_size(PartitionSize { m: 1, n: 1, k: 1 })
        .with_stage_size(StageSize { m: 1, n: 1, k: 1 })
        .build(budget);
    let ts = match built {
        Ok(ts) => ts,
        Err(e) => {
            return Err(e);
        },
    };
    let ccs = match num_sms {
        Some(n) => CubeCountStrategy::Sm {
            cubes_first: true,
            num_sms: n,
            sm_usage: SmAllocation::Exact,
        },
        None => CubeCountStrategy::FromProblem,
    };
    let hypercube = HypercubeBlueprint::builder(&ts).global_order_strategy(
        GlobalOrderStrategy::SwizzleRow { m: problem.m, w: 2 },
    ).cube_count_strategy(ccs).build();
    Ok(
        TilingBlueprint::builder(ts, plane_dim, problem).partition_buffering(
            PartitionBuffering::Single,
        ).hypercube_blueprint(hypercube).build(),
    )
}

/// The blueprint the strategy yields: a forced blueprint as it stands,
/// otherwise the inferred one.
pub open spec fn spec_vecmat_blueprint(
    problem: MatmulProblem,
    ds: DeviceSettings,
    strategy: BlueprintStrategy<VecMatStrategy>,
) -> Result<TilingBlueprint, MatmulSetupError> {
    match strategy {
        BlueprintStrategy::Forced(bp) => Ok(bp),
        BlueprintStrategy::Inferred(_) => spec_infer_blueprint_vecmat(
            problem,
            ds.plane_dim,
            ds.line_sizes,
            ds.num_streaming_multiprocessors,
            ds.max_elements_per_stage,
        ),
    }
}

/// The full outcome of preparing a vector-matrix launch: the blueprint,
/// the launch-grid plan and the plane count, or the first error on the
/// way there. The family asks for one plane per stage row.
pub open spec fn spec_prepare_vecmat(
    problem: MatmulProblem,
    ds: DeviceSettings,
    strategy: BlueprintStrategy<VecMatStrategy>,
) -> Result<(TilingBlueprint, CubeCountPlan, u32), MatmulSetupError> {
    match spec_vecmat_blueprint(problem, ds, strategy) {
        Err(e) => Err(e),
        Ok(bp) => {
            let res = CubeDimResource::Planes(bp.tiling_scheme.stage_size.m);
            match spec_validate(bp, res, ds) {
                Err(e) => Err(e),
                Ok(_) => {
                    let plan = spec_resolve_cube_count(
                        bp.hypercube_blueprint.cube_count_strategy,
                        spec_m_cubes(problem, bp.tiling_scheme),
                        spec_n_cubes(problem, bp.tiling_scheme),
                        problem.batch as int,
                        ds.max_cube_count.0 as int,
                        ds.max_cube_count.1 as int,
                        ds.max_cube_count.2 as int,
                    );
                    match plan {
                        Err(e) => Err(e),
                        Ok(p) => {
                            match res.spec_num_planes(ds.plane_dim) {
                                Ok(planes) => Ok((bp, p, planes)),
                                Err(e) => Err(MatmulSetupError::InvalidConfig(e)),
                            }
                        },
                    }
                },
            }
        },
    }
}

/// Resolves a validated vector-matrix launch; shared by the single and
/// double-buffered variants, whose planning decisions are identical.
fn prepare_vecmat(
    problem: &MatmulProblem,
    device_settings: &DeviceSettings,
    strategy: &BlueprintStrategy<VecMatStrategy>,
) -> (r: Result<LaunchInfo, MatmulSetupError>)
    requires
        device_settings.wf(),
        0 < problem.m,
        0 < problem.n,
        0 < problem.batch,
    ensures
        ({
            let s = spec_prepare_vecmat(*problem, *device_settings, *strategy);
            match r {
                Ok(info) => s matches Ok((bp, plan, planes)) && {
                    &&& info.blueprint == bp
                    &&& info.dtypes == spec_vecmat_dtypes(problem.global_dtypes)
                    &&& info.cube_count_plan == plan
                    &&& info.cube_dim.x == device_settings.plane_dim
                    &&& info.cube_dim.y == planes
                    &&& info.cube_dim.z == 1
                },
                Err(e) => s matches Err(e2) && e == e2,
            }
        }),
{
    let mut dtypes = MatmulElems::from_globals(&problem.global_dtypes);
    // The plane inner-product tile matmul can cast stage elements.
    dtypes.adjust_stage_dtypes();
    proof {
        assert(dtypes == spec_vecmat_dtypes(problem.global_dtypes));
    }
    let blueprint = match strategy {
        BlueprintStrategy::Forced(bp) => *bp,
        BlueprintStrategy::Inferred(_) => {
            match infer_blueprint_vecmat(
                problem,
                device_settings.plane_dim,
                device_settings.line_sizes,
                device_settings.num_streaming_multiprocessors,
                device_settings.max_elements_per_stage,
            ) {
                Ok(bp) => bp,
                Err(e) => {
                    return Err(e);
                },
            }
        },
    };
    let resource = CubeDimResource::Planes(blueprint.tiling_scheme.stage_size.m);
    if let Err(e) = validate_blueprint(&blueprint, resource, device_settings) {
        return Err(e);
    }
    proof {
        lemma_build_ok_wf(
            blueprint.tiling_scheme.tile_size,
            blueprint.tiling_scheme.partition_size,
            blueprint.tiling_scheme.stage_size,
            device_settings.max_elements_per_stage,
        );
    }
    LaunchInfo::new(blueprint, dtypes, problem, resource, device_settings)
}

/// Single-stage vector-matrix matmul: each plane computes an inner
/// product over one output line.
pub struct SimpleVecMatAlgorithm {}

impl SimpleVecMatAlgorithm {
    /// Resolves a validated launch of the single-stage vector-matrix
    /// family. Succeeds exactly when the blueprint resolves, passes
    /// validation, and the grid plan fits the device.
    pub fn prepare(
        problem: &MatmulProblem,
        device_settings: &DeviceSettings,
        strategy: &BlueprintStrategy<VecMatStrategy>,
    ) -> (r: Result<LaunchInfo, MatmulSetupError>)
        requires
            device_settings.wf(),
            0 < problem.m,
            0 < problem.n,
            0 < problem.batch,
        ensures
            ({
                let s = spec_prepare_vecmat(*problem, *device_settings, *strategy);
                match r {
                    Ok(info) => s matches Ok((bp, plan, planes)) && {
                        &&& info.blueprint == bp
                        &&& info.dtypes == spec_vecmat_dtypes(problem.global_dtypes)
                        &&& info.cube_count_plan == plan
                        &&& info.cube_dim.x == device_settings.plane_dim
                        &&& info.cube_dim.y == planes
                        &&& info.cube_dim.z == 1
                    },
                    Err(e) => s matches Err(e2) && e == e2,
                }
            }),
    {
        prepare_vecmat(problem, device_settings, strategy)
    }
}

/// Double-buffered vector-matrix matmul: the same planning decisions as
/// the single-stage variant; the two differ only in how their kernels
/// overlap loads with compute.
pub struct DoubleVecMatAlgorithm {}

impl DoubleVecMatAlgorithm {
    /// Resolves a validated launch of the double-buffered vector-matrix
    /// family. Succeeds exactly when the blueprint resolves, passes
    /// validation, and the grid plan fits the device.
    pub fn prepare(
        problem: &MatmulProblem,
        device_settings: &DeviceSettings,
        strategy: &BlueprintStrategy<VecMatStrategy>,
    ) -> (r: Result<LaunchInfo, MatmulSetupError>)
        requires
            device_settings.wf(),
            0 < problem.m,
            0 < problem.n,
            0 < problem.batch,
        ensures
            ({
                let s = spec_prepare_vecmat(*problem, *device_settings, *strategy);
                match r {
                    Ok(info) => s matches Ok((bp, plan, planes)) && {
                        &&& info.blueprint == bp
                        &&& info.dtypes == spec_vecmat_dtypes(problem.global_dtypes)
                        &&& info.cube_count_plan == plan
                        &&& info.cube_dim.x == device_settings.plane_dim
                        &&& info.cube_dim.y == planes
                        &&& info.cube_dim.z == 1
                    },
                    Err(e) => s matches Err(e2) && e == e2,
                }
            }),
    {
        prepare_vecmat(problem, device_settings, strategy)
    }
}

} // verus!
