use vstd::prelude::*;

use crate::memory::GlobalLayoutConfig;
use crate::hypercube::HypercubeBlueprint;
use crate::cube_count::CubeCountStrategy;
use crate::global_order::GlobalOrder;
use crate::problem::{MatmulProblem, MatrixLayout};
use crate::specialization::LoadFlows;
use crate::tiling::TilingScheme;

verus! {

/// Bank-swizzling applied to one operand's shared-memory stage, by the
/// width in bytes of the swizzled span.
#[derive(Clone, Copy, Debug, PartialEq, Eq, Hash, Structural)]
pub enum SwizzleMode {
    Off,
    B32,
    B64,
    B128,
}

impl Default for SwizzleMode {
    fn default() -> (r: Self)
        ensures
            r == SwizzleMode::Off,
    {
        SwizzleMode::Off
    }
}

/// Swizzle mode of each operand stage.
#[derive(Clone, Copy, Debug, PartialEq, Eq, Hash, Structural)]
pub struct SwizzleModes {
    pub lhs: SwizzleMode,
    pub rhs: SwizzleMode,
    pub acc: SwizzleMode,
    pub out: SwizzleMode,
}

impl Default for SwizzleModes {
    fn default() -> (r: Self)
        ensures
            r == (SwizzleModes {
                lhs: SwizzleMode::Off,
                rhs: SwizzleMode::Off,
                acc: SwizzleMode::Off,
                out: SwizzleMode::Off,
            }),
    {
        SwizzleModes {
            lhs: SwizzleMode::Off,
            rhs: SwizzleMode::Off,
            acc: SwizzleMode::Off,
            out: SwizzleMode::Off,
        }
    }
}

impl SwizzleModes {
    /// Whether any operand stage is swizzled.
    pub fn has_swizzle(&self) -> (r: bool)
        ensures
            r == (self.lhs != SwizzleMode::Off || self.rhs != SwizzleMode::Off || self.acc
                != SwizzleMode::Off || self.out != SwizzleMode::Off),
    {
        !matches!(self.lhs, SwizzleMode::Off) || !matches!(self.rhs, SwizzleMode::Off)
            || !matches!(self.acc, SwizzleMode::Off) || !matches!(self.out, SwizzleMode::Off)
    }
}

/// Whether the two halves of a plane's partition are computed from one
/// staged buffer or double-buffered.
#[derive(Clone, Copy, Debug, PartialEq, Eq, Hash, Structural)]
pub enum PartitionBuffering {
    Single,
    Double,
}

impl Default for PartitionBuffering {
    fn default() -> (r: Self)
        ensures
            r == PartitionBuffering::Single,
    {
        PartitionBuffering::Single
    }
}

/// How strictly a global reader checks its work division.
#[derive(Clone, Copy, Debug, PartialEq, Eq, Hash, Structural)]
pub enum ReaderMode {
    Strict,
    Relaxed,
}

impl Default for ReaderMode {
    fn default() -> (r: Self)
        ensures
            r == ReaderMode::Strict,
    {
        ReaderMode::Strict
    }
}

/// Whether loading jobs precompute the values they share across tasks.
#[derive(Clone, Copy, Debug, PartialEq, Eq, Hash, Structural)]
pub enum LoadingPrecomputeStrategy {
    /// Don't precompute anything in loading jobs.
    Never,
    /// Precompute values that are shared across tasks.
    Always,
}

impl Default for LoadingPrecomputeStrategy {
    fn default() -> (r: Self)
        ensures
            r == LoadingPrecomputeStrategy::Never,
    {
        LoadingPrecomputeStrategy::Never
    }
}

impl LoadingPrecomputeStrategy {
    /// Whether precomputation is enabled.
    pub fn enabled(self) -> (r: bool)
        ensures
            r == (self == LoadingPrecomputeStrategy::Always),
    {
        matches!(self, LoadingPrecomputeStrategy::Always)
    }
}

/// How many rows of tiles one plane handles.
#[derive(Clone, Copy, Debug, PartialEq, Eq, Hash, Structural)]
pub enum MultiRowStrategy {
    /// Always one row per plane.
    Never,
    /// Always multiple rows per plane.
    Always(u32),
    /// Multiple rows when the m dimension implies at least the minimum
    /// number of stages along m.
    Adaptive { minimum_stage_count: u32 },
}

impl Default for MultiRowStrategy {
    fn default() -> (r: Self)
        ensures
            r == MultiRowStrategy::Never,
    {
        MultiRowStrategy::Never
    }
}

/// A fully resolved execution blueprint. Two blueprints are
/// interchangeable iff structurally equal.
pub trait Blueprint {
    fn lhs_global_layout_config(&self) -> GlobalLayoutConfig;

    fn rhs_global_layout_config(&self) -> GlobalLayoutConfig;

    fn out_global_layout_config(&self) -> GlobalLayoutConfig;
}

/// The execution blueprint of the tiled matmul families: the blocking
/// scheme, per-operand layout and bounds-check flags, pipelining
/// choices, and the grid-mapping blueprint.
#[derive(Clone, Copy, Debug, PartialEq, Eq, Hash, Structural)]
pub struct TilingBlueprint {
    pub plane_dim: u32,
    pub tiling_scheme: TilingScheme,
    pub swizzle_modes: SwizzleModes,
    pub partition_buffering: PartitionBuffering,
    pub loading_precompute_strategy: LoadingPrecomputeStrategy,
    pub reader_mode: ReaderMode,
    pub load_flows: LoadFlows,
    pub hypercube_blueprint: HypercubeBlueprint,
    pub lhs_layout: MatrixLayout,
    pub rhs_layout: MatrixLayout,
    pub check_m_bounds: bool,
    pub check_n_bounds: bool,
    pub check_k_bounds: bool,
}

impl Blueprint for TilingBlueprint {
    /// Lhs spans (m, k): bounds are checked along a dimension exactly
    /// when the blueprint flags it.
    fn lhs_global_layout_config(&self) -> (r: GlobalLayoutConfig)
        ensures
            r == (GlobalLayoutConfig {
                matrix_layout: self.lhs_layout,
                check_row_bounds: self.check_m_bounds,
                check_col_bounds: self.check_k_bounds,
            }),
    {
        GlobalLayoutConfig {
            matrix_layout: self.lhs_layout,
            check_row_bounds: self.check_m_bounds,
            check_col_bounds: self.check_k_bounds,
        }
    }

    /// Rhs spans (k, n).
    fn rhs_global_layout_config(&self) -> (r: GlobalLayoutConfig)
        ensures
            r == (GlobalLayoutConfig {
                matrix_layout: self.rhs_layout,
                check_row_bounds: self.check_k_bounds,
                check_col_bounds: self.check_n_bounds,
            }),
    {
        GlobalLayoutConfig {
            matrix_layout: self.rhs_layout,
            check_row_bounds: self.check_k_bounds,
            check_col_bounds: self.check_n_bounds,
        }
    }

    /// The output spans (m, n) and is always written row-major.
    fn out_global_layout_config(&self) -> (r: GlobalLayoutConfig)
        ensures
            r == (GlobalLayoutConfig {
                matrix_layout: MatrixLayout::RowMajor,
                check_row_bounds: self.check_m_bounds,
                check_col_bounds: self.check_n_bounds,
            }),
    {
        GlobalLayoutConfig {
            matrix_layout: MatrixLayout::RowMajor,
            check_row_bounds: self.check_m_bounds,
            check_col_bounds: self.check_n_bounds,
        }
    }
}

/// Whether bounds must be checked along an axis: exactly when the
/// problem size is not a whole multiple of the elements one work-group
/// consumes along that axis.
pub open spec fn spec_check_bounds(problem_size: int, elements_per_stage: int) -> bool {
    problem_size % elements_per_stage != 0
}

impl TilingBlueprint {
    pub fn builder(tiling_scheme: TilingScheme, plane_dim: u32, problem: &MatmulProblem) -> (r:
        TilingBlueprintBuilder)
        requires
            tiling_scheme.wf(),
        ensures
            r.plane_dim == plane_dim,
            r.tiling_scheme == tiling_scheme,
            r.check_m_bounds == spec_check_bounds(
                problem.m as int,
                tiling_scheme.spec_elements_per_stage_m(),
            ),
            r.check_n_bounds == spec_check_bounds(
                problem.n as int,
                tiling_scheme.spec_elements_per_stage_n(),
            ),
            r.check_k_bounds == spec_check_bounds(
                problem.k as int,
                tiling_scheme.spec_elements_per_stage_k(),
            ),
            r.lhs_layout == problem.lhs_layout,
            r.rhs_layout == problem.rhs_layout,
            r.hypercube_blueprint == (HypercubeBlueprint {
                global_order: GlobalOrder::RowMajor,
                cube_count_strategy: CubeCountStrategy::FromProblem,
            }),
            r.shared_swizzle == SwizzleModes::spec_default(),
            r.partition_buffering == PartitionBuffering::Single,
            r.loading_precompute_strategy == LoadingPrecomputeStrategy::Never,
            r.reader_mode == ReaderMode::Strict,
            r.load_specialization_config == LoadFlows::spec_default(),
    {
        let hypercube_blueprint = HypercubeBlueprint::builder(&tiling_scheme).build();

        let check_m_bounds = problem.m % tiling_scheme.elements_per_stage_along_m() != 0;
        let check_n_bounds = problem.n % tiling_scheme.elements_per_stage_along_n() != 0;
        let check_k_bounds = problem.k % tiling_scheme.elements_per_stage_along_k() != 0;

        TilingBlueprintBuilder {
            plane_dim,
            tiling_scheme,
            hypercube_blueprint,
            check_m_bounds,
            check_n_bounds,
            check_k_bounds,
            lhs_layout: problem.lhs_layout,
            rhs_layout: problem.rhs_layout,
            shared_swizzle: SwizzleModes::default(),
            partition_buffering: PartitionBuffering::Single,
            loading_precompute_strategy: LoadingPrecomputeStrategy::Never,
            reader_mode: ReaderMode::Strict,
            load_specialization_config: LoadFlows::default(),
        }
    }
}

/// Builder for a [`TilingBlueprint`]; every field not set keeps its
/// default.
#[derive(Clone, Copy, Debug, PartialEq, Eq, Hash, Structural)]
pub struct TilingBlueprintBuilder {
    pub plane_dim: u32,
    pub tiling_scheme: TilingScheme,
    pub check_m_bounds: bool,
    pub check_n_bounds: bool,
    pub check_k_bounds: bool,
    pub lhs_layout: MatrixLayout,
    pub rhs_layout: MatrixLayout,
    pub hypercube_blueprint: HypercubeBlueprint,
    pub shared_swizzle: SwizzleModes,
    pub partition_buffering: PartitionBuffering,
    pub loading_precompute_strategy: LoadingPrecomputeStrategy,
    pub reader_mode: ReaderMode,
    pub load_specialization_config: LoadFlows,
}

impl SwizzleModes {
    /// The all-unswizzled default.
    pub open spec fn spec_default() -> SwizzleModes {
        SwizzleModes {
            lhs: SwizzleMode::Off,
            rhs: SwizzleMode::Off,
            acc: SwizzleMode::Off,
            out: SwizzleMode::Off,
        }
    }
}

impl LoadFlows {
    /// The unspecialized default: both operands on the main flow.
    pub open spec fn spec_default() -> LoadFlows {
        LoadFlows {
            lhs: crate::specialization::InputLoadFlow::MainOnly,
            rhs: crate::specialization::InputLoadFlow::MainOnly,
        }
    }
}

impl TilingBlueprintBuilder {
    pub fn hypercube_blueprint(self, hypercube_blueprint: HypercubeBlueprint) -> (r: Self)
        ensures
            r == (TilingBlueprintBuilder { hypercube_blueprint, ..self }),
    {
        TilingBlueprintBuilder { hypercube_blueprint, ..self }
    }

    pub fn shared_swizzle(self, swizzle: SwizzleModes) -> (r: Self)
        ensures
            r == (TilingBlueprintBuilder { shared_swizzle: swizzle, ..self }),
    {
        TilingBlueprintBuilder { shared_swizzle: swizzle, ..self }
    }

    pub fn partition_buffering(self, partition_buffering: PartitionBuffering) -> (r: Self)
        ensures
            r == (TilingBlueprintBuilder { partition_buffering, ..self }),
    {
        TilingBlueprintBuilder { partition_buffering, ..self }
    }

    pub fn loading_precompute_strategy(
        self,
        loading_precompute_strategy: LoadingPrecomputeStrategy,
    ) -> (r: Self)
        ensures
            r == (TilingBlueprintBuilder { loading_precompute_strategy, ..self }),
    {
        TilingBlueprintBuilder { loading_precompute_strategy, ..self }
    }

    pub fn reader_mode(self, reader_mode: ReaderMode) -> (r: Self)
        ensures
            r == (TilingBlueprintBuilder { reader_mode, ..self }),
    {
        TilingBlueprintBuilder { reader_mode, ..self }
    }

    pub fn load_specialization_config(self, load_specialization_config: LoadFlows) -> (r: Self)
        ensures
            r == (TilingBlueprintBuilder { load_specialization_config, ..self }),
    {
        TilingBlueprintBuilder { load_specialization_config, ..self }
    }

    /// Assembles the blueprint from the builder's fields.
    pub fn build(self) -> (r: TilingBlueprint)
        ensures
            r == (TilingBlueprint {
                plane_dim: self.plane_dim,
                tiling_scheme: self.tiling_scheme,
                swizzle_modes: self.shared_swizzle,
                partition_buffering: self.partition_buffering,
                loading_precompute_strategy: self.loading_precompute_strategy,
                reader_mode: self.reader_mode,
                load_flows: self.load_specialization_config,
                hypercube_blueprint: self.hypercube_blueprint,
                lhs_layout: self.lhs_layout,
                rhs_layout: self.rhs_layout,
                check_m_bounds: self.check_m_bounds,
                check_n_bounds: self.check_n_bounds,
                check_k_bounds: self.check_k_bounds,
            }),
    {
        TilingBlueprint {
            plane_dim: self.plane_dim,
            tiling_scheme: self.tiling_scheme,
            swizzle_modes: self.shared_swizzle,
            partition_buffering: self.partition_buffering,
            loading_precompute_strategy: self.loading_precompute_strategy,
            reader_mode: self.reader_mode,
            load_flows: self.load_specialization_config,
            hypercube_blueprint: self.hypercube_blueprint,
            lhs_layout: self.lhs_layout,
            rhs_layout: self.rhs_layout,
            check_m_bounds: self.check_m_bounds,
            check_n_bounds: self.check_n_bounds,
            check_k_bounds: self.check_k_bounds,
        }
    }
}

} // verus!
