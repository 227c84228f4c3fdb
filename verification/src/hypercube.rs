use vstd::prelude::*;

use crate::cube_count::CubeCountStrategy;
use crate::global_order::{GlobalOrder, GlobalOrderStrategy, spec_div_ceil};
use crate::tiling::TilingScheme;

verus! {

/// Everything relevant to launching the grid: how many work-groups, in
/// what shape, and which block of work the work-group at each position
/// owns.
#[derive(Clone, Copy, Debug, PartialEq, Eq, Hash, Structural)]
pub struct HypercubeBlueprint {
    pub global_order: GlobalOrder,
    pub cube_count_strategy: CubeCountStrategy,
}

impl HypercubeBlueprint {
    /// Create a builder for a [`HypercubeBlueprint`].
    pub fn builder(tiling_scheme: &TilingScheme) -> (r: HypercubeBlueprintBuilder)
        requires
            tiling_scheme.wf(),
        ensures
            r.tiling_scheme == *tiling_scheme,
            r.global_order_strategy == GlobalOrderStrategy::Standard,
            r.cube_count_strategy is None,
    {
        HypercubeBlueprintBuilder::new(tiling_scheme)
    }
}

/// Builder for a [`HypercubeBlueprint`].
#[derive(Clone, Copy, Debug, PartialEq, Eq, Hash, Structural)]
pub struct HypercubeBlueprintBuilder {
    pub tiling_scheme: TilingScheme,
    pub global_order_strategy: GlobalOrderStrategy,
    pub cube_count_strategy: Option<CubeCountStrategy>,
}

impl HypercubeBlueprintBuilder {
    pub(crate) fn new(tiling_scheme: &TilingScheme) -> (r: Self)
        requires
            tiling_scheme.wf(),
        ensures
            r.tiling_scheme == *tiling_scheme,
            r.global_order_strategy == GlobalOrderStrategy::Standard,
            r.cube_count_strategy is None,
    {
        HypercubeBlueprintBuilder {
            tiling_scheme: *tiling_scheme,
            global_order_strategy: GlobalOrderStrategy::Standard,
            cube_count_strategy: None,
        }
    }

    /// Set the [`GlobalOrderStrategy`].
    pub fn global_order_strategy(self, global_order_strategy: GlobalOrderStrategy) -> (r: Self)
        ensures
            r == (HypercubeBlueprintBuilder { global_order_strategy, ..self }),
    {
        HypercubeBlueprintBuilder { global_order_strategy, ..self }
    }

    /// Set the [`CubeCountStrategy`].
    pub fn cube_count_strategy(self, cube_count_plan_blueprint: CubeCountStrategy) -> (r: Self)
        ensures
            r == (HypercubeBlueprintBuilder {
                cube_count_strategy: Some(cube_count_plan_blueprint),
                ..self
            }),
    {
        HypercubeBlueprintBuilder { cube_count_strategy: Some(cube_count_plan_blueprint), ..self }
    }

    /// Build the [`HypercubeBlueprint`]: the order strategy is resolved
    /// against the tiling scheme, and an unset count strategy defaults
    /// to `FromProblem`.
    pub fn build(self) -> (r: HypercubeBlueprint)
        requires
            self.tiling_scheme.wf(),
        ensures
            self.global_order_strategy is Standard ==> r.global_order == GlobalOrder::RowMajor,
            self.global_order_strategy matches GlobalOrderStrategy::SwizzleRow { m, w } ==> {
                let rows = spec_div_ceil(
                    m as int,
                    self.tiling_scheme.spec_elements_per_stage_m(),
                );
                if w > 0 && rows % (w as int) == 0 {
                    r.global_order == GlobalOrder::SwizzleRowMajor(w)
                } else {
                    r.global_order == GlobalOrder::RowMajor
                }
            },
            r.cube_count_strategy == match self.cube_count_strategy {
                Some(s) => s,
                None => CubeCountStrategy::FromProblem,
            },
    {
        let global_order = self.global_order_strategy.into_order(&self.tiling_scheme);
        let cube_count_strategy = match self.cube_count_strategy {
            Some(s) => s,
            None => CubeCountStrategy::FromProblem,
        };
        HypercubeBlueprint { global_order, cube_count_strategy }
    }
}

} // verus!
