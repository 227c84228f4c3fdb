use vstd::prelude::*;

use crate::blueprint::{
    LoadingPrecomputeStrategy, PartitionBuffering, ReaderMode, SwizzleMode, SwizzleModes,
    TilingBlueprint, spec_check_bounds,
};
use crate::cube_count::CubeCountStrategy;
use crate::error::MatmulSetupError;
use crate::global_order::GlobalOrder;
use crate::hypercube::HypercubeBlueprint;
use crate::problem::MatmulProblem;
use crate::specialization::{InputLoadFlow, LoadFlows};
use crate::tiling::{
    PartitionSize, StageSize, TileSize, TilingScheme, spec_build_tiling_scheme,
};

verus! {

/// A user-chosen selection: the full blocking scheme and plane width to
/// force, bypassing inference (the result is still validated).
#[derive(Clone, Copy, Debug, PartialEq, Eq, Hash, Structural)]
pub struct MatmulSelection {
    pub tiling_scheme: TilingScheme,
    pub plane_dim: u32,
}

/// Either a predefined [`MatmulSelection`], or partial hints from which
/// the rest is inferred.
#[derive(Clone, Copy, Debug)]
pub enum Selection<S> {
    /// Use a predefined selection.
    Forced(MatmulSelection),
    /// Give limited information; the rest is inferred from it.
    Inferred(S),
}

impl<S: Default + Copy> Selection<S> {
    /// Force the given selection if there is one; otherwise infer
    /// everything from defaults.
    pub fn maybe_forced_default(s: &Option<MatmulSelection>) -> (r: Self)
        ensures
            s matches Some(sel) ==> (r matches Selection::Forced(f) && f == sel),
            s is None ==> r is Inferred,
    {
        match s {
            Some(sel) => Selection::Forced(*sel),
            None => Selection::Inferred(Default::default()),
        }
    }
}

impl<S: Copy> Selection<S> {
    /// Force the given selection if there is one; otherwise infer from
    /// the given hints.
    pub fn maybe_forced_or(s: &Option<MatmulSelection>, args: &S) -> (r: Self)
        ensures
            s matches Some(sel) ==> (r matches Selection::Forced(f) && f == sel),
            s is None ==> (r matches Selection::Inferred(a) && a == args),
    {
        match s {
            Some(sel) => Selection::Forced(*sel),
            None => Selection::Inferred(*args),
        }
    }
}

impl<S: Default + Copy> Default for Selection<S> {
    /// With no information at all, everything is inferred.
    fn default() -> (r: Self)
        ensures
            r is Inferred,
    {
        Selection::Inferred(Default::default())
    }
}

/// Hint: prefer the smallest or the largest tile a unit can compute.
#[derive(Clone, Copy, Debug, PartialEq, Eq, Hash, Structural)]
pub enum TileSizeSelection {
    MinTileSize,
    MaxTileSize,
}

impl Default for TileSizeSelection {
    fn default() -> (r: Self)
        ensures
            r == TileSizeSelection::MinTileSize,
    {
        TileSizeSelection::MinTileSize
    }
}

/// Whether inference scales the stage up, and by what factor.
#[derive(Clone, Copy, Debug, PartialEq, Eq, Hash, Structural)]
pub enum StageScaling {
    Enabled(u32),
    Disabled,
}

/// Whether inference widens the per-unit partition.
#[derive(Clone, Copy, Debug, PartialEq, Eq, Hash, Structural)]
pub enum PartitionScaling {
    Enabled,
    Disabled,
}

/// Concrete scaling decisions a tile-size hint expands into for the
/// unit family.
#[derive(Clone, Copy, Debug, PartialEq, Eq, Hash, Structural)]
pub struct UnitTilingBlueprintOptions {
    pub tile: TileSizeSelection,
    pub stage: StageScaling,
    pub partition: PartitionScaling,
    pub swizzle: bool,
}

/// The stage-scaling factor an option asks for; scaling by zero means
/// no scaling.
pub open spec fn spec_stage_factor(stage: StageScaling) -> int {
    match stage {
        StageScaling::Enabled(f) => if f >= 1 {
            f as int
        } else {
            1
        },
        StageScaling::Disabled => 1,
    }
}

/// The tile the unit family infers from the hint: the register matmul
/// consumes 4x4x4 blocks at least and 8x8x8 at most.
pub open spec fn spec_unit_tile(tile: TileSizeSelection) -> TileSize {
    match tile {
        TileSizeSelection::MinTileSize => TileSize { m: 4, n: 4, k: 4 },
        TileSizeSelection::MaxTileSize => TileSize { m: 8, n: 8, k: 8 },
    }
}

/// The partition the unit family infers: widened to 2x2 tiles per unit
/// when partition scaling is on.
pub open spec fn spec_unit_partition(partition: PartitionScaling) -> PartitionSize {
    match partition {
        PartitionScaling::Enabled => PartitionSize { m: 2, n: 2, k: 1 },
        PartitionScaling::Disabled => PartitionSize { m: 1, n: 1, k: 1 },
    }
}

/// The base stage of the unit family: one unit per stage position, with
/// stage_m x stage_n equal to the plane width so every launched plane is
/// full.
pub open spec fn spec_unit_base_stage(plane_dim: u32) -> StageSize {
    if plane_dim % 4 == 0 {
        StageSize { m: (plane_dim / 4) as u32, n: 4, k: 1 }
    } else {
        StageSize { m: plane_dim, n: 1, k: 1 }
    }
}

/// The blueprint the unit family infers from the problem and the
/// scaling options, under the given per-axis stage element budget.
pub open spec fn spec_infer_blueprint_unit(
    problem: MatmulProblem,
    plane_dim: u32,
    budget: u32,
    options: UnitTilingBlueprintOptions,
) -> Result<TilingBlueprint, MatmulSetupError> {
    let tile = spec_unit_tile(options.tile);
    let partition = spec_unit_partition(options.partition);
    let base = spec_unit_base_stage(plane_dim);
    let f = spec_stage_factor(options.stage);
    if base.m * f > u32::MAX {
        Err(
            MatmulSetupError::InvalidConfig(
                crate::error::InvalidConfigError::StageBudgetExceeded,
            ),
        )
    } else {
        let stage = StageSize { m: (base.m * f) as u32, n: base.n, k: base.k };
        match spec_build_tiling_scheme(tile, partition, stage, budget) {
            Err(e) => Err(e),
            Ok(ts) => Ok(spec_assemble_unit_blueprint(problem, plane_dim, ts, options.swizzle)),
        }
    }
}

/// The blueprint the unit family assembles around an inferred scheme:
/// defaults everywhere, the problem's layouts, bounds checks where the
/// problem does not divide evenly, and a stage swizzle when the device
/// prefers one.
pub open spec fn spec_assemble_unit_blueprint(
    problem: MatmulProblem,
    plane_dim: u32,
    ts: TilingScheme,
    swizzle: bool,
) -> TilingBlueprint {
    TilingBlueprint {
        plane_dim,
        tiling_scheme: ts,
        swizzle_modes: if swizzle {
            SwizzleModes {
                lhs: SwizzleMode::B32,
                rhs: SwizzleMode::B32,
                acc: SwizzleMode::Off,
                out: SwizzleMode::Off,
            }
        } else {
            SwizzleModes::spec_default()
        },
        partition_buffering: PartitionBuffering::Single,
        loading_precompute_strategy: LoadingPrecomputeStrategy::Never,
        reader_mode: ReaderMode::Strict,
        load_flows: LoadFlows { lhs: InputLoadFlow::MainOnly, rhs: InputLoadFlow::MainOnly },
        hypercube_blueprint: HypercubeBlueprint {
            global_order: GlobalOrder::RowMajor,
            cube_count_strategy: CubeCountStrategy::FromProblem,
        },
        lhs_layout: problem.lhs_layout,
        rhs_layout: problem.rhs_layout,
        check_m_bounds: spec_check_bounds(
            problem.m as int,
            ts.spec_elements_per_stage_m(),
        ),
        check_n_bounds: spec_check_bounds(
            problem.n as int,
            ts.spec_elements_per_stage_n(),
        ),
        check_k_bounds: spec_check_bounds(
            problem.k as int,
            ts.spec_elements_per_stage_k(),
        ),
    }
}

/// Infers a blueprint for the unit (one output partition per scalar
/// unit) family: a tile from the hint, a partition from the partition
/// scaling, and a stage sized so the unit count is a whole multiple of
/// the plane width.
pub fn infer_blueprint_unit(
    problem: &MatmulProblem,
    plane_dim: u32,
    budget: u32,
    options: UnitTilingBlueprintOptions,
) -> (r: Result<TilingBlueprint, MatmulSetupError>)
    requires
        0 < plane_dim,
    ensures
        r == spec_infer_blueprint_unit(*problem, plane_dim, budget, options),
        r matches Ok(bp) ==> {
            &&& bp.tiling_scheme.wf()
            &&& bp.plane_dim == plane_dim
            &&& bp.tiling_scheme.stage_size.m * bp.tiling_scheme.stage_size.n == plane_dim
                * spec_stage_factor(options.stage)
        },
{
    let tile = match options.tile {
        TileSizeSelection::MinTileSize => TileSize { m: 4, n: 4, k: 4 },
        TileSizeSelection::MaxTileSize => TileSize { m: 8, n: 8, k: 8 },
    };
    let partition = match options.partition {
        PartitionScaling::Enabled => PartitionSize { m: 2, n: 2, k: 1 },
        PartitionScaling::Disabled => PartitionSize { m: 1, n: 1, k: 1 },
    };
    let base: StageSize = if plane_dim % 4 == 0 {
        StageSize { m: plane_dim / 4, n: 4, k: 1 }
    } else {
        StageSize { m: plane_dim, n: 1, k: 1 }
    };
    let f: u32 = match options.stage {
        StageScaling::Enabled(f) => {
            if f >= 1 {
                f
            } else {
                1
            }
        },
        StageScaling::Disabled => 1,
    };
    proof {
        assert((base.m as int) * (f as int) <= 0xFFFF_FFFF_FFFF_FFFF) by (nonlinear_arith)
            requires
                base.m <= u32::MAX,
                f <= u32::MAX,
            ;
    }
    let scaled_m: u64 = (base.m as u64) * (f as u64);
    if scaled_m > u32::MAX as u64 {
        return Err(
            MatmulSetupError::InvalidConfig(crate::error::InvalidConfigError::StageBudgetExceeded),
        );
    }
    let stage = StageSize { m: scaled_m as u32, n: base.n, k: base.k };
    let built = TilingScheme::builder().with_tile_size(tile)
        .with_partition_size(partition)
        .with_stage_size(stage)
        .build(budget);
    let ts = match built {
        Ok(ts) => ts,
        Err(e) => {
            return Err(e);
        },
    };
    proof {
        lemma_unit_stage_units(plane_dim, f, base, stage);
    }
    let swizzle_modes = if options.swizzle {
        SwizzleModes {
            lhs: SwizzleMode::B32,
            rhs: SwizzleMode::B32,
            acc: SwizzleMode::Off,
            out: SwizzleMode::Off,
        }
    } else {
        SwizzleModes::default()
    };
    Ok(
        TilingBlueprint::builder(ts, plane_dim, problem).shared_swizzle(swizzle_modes)
            .partition_buffering(PartitionBuffering::Single)
            .build(),
    )
}

/// The inferred stage always holds plane_dim * factor unit positions:
/// (plane_dim / 4) * factor * 4 when the plane width divides by four,
/// plane_dim * factor * 1 otherwise.
proof fn lemma_unit_stage_units(plane_dim: u32, f: u32, base: StageSize, stage: StageSize)
    requires
        0 < plane_dim,
        base == spec_unit_base_stage(plane_dim),
        base.m * f <= u32::MAX,
        1 <= f,
        stage.m == base.m * f,
        stage.n == base.n,
    ensures
        stage.m * stage.n == plane_dim * f,
{
    if plane_dim % 4 == 0 {
        let q = plane_dim / 4;
        vstd::arithmetic::div_mod::lemma_fundamental_div_mod(plane_dim as int, 4);
        assert(plane_dim == 4 * q);
        assert((q * f) * 4 == plane_dim * f) by (nonlinear_arith)
            requires
                plane_dim == 4 * q,
            ;
    } else {
        assert((plane_dim * f) * 1 == plane_dim * f) by (nonlinear_arith);
    }
}

} // verus!
