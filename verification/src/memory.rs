use vstd::prelude::*;

use crate::problem::{GlobalPartitionSize, MatrixLayout};

verus! {

/// How a global-memory view advances while a kernel walks the reduction
/// dimension.
#[derive(Clone, Copy, Debug, PartialEq, Eq, Hash, Structural)]
pub enum ViewDirection {
    Fixed,
    Row,
    Col,
}

/// Layout and bounds-check flags of one operand's global-memory view.
#[derive(Clone, Copy, Debug, PartialEq, Eq, Hash, Structural)]
pub struct GlobalLayoutConfig {
    pub matrix_layout: MatrixLayout,
    pub check_row_bounds: bool,
    pub check_col_bounds: bool,
}

/// Full global-memory configuration of one operand.
#[derive(Clone, Copy, Debug, PartialEq, Eq, Hash, Structural)]
pub struct GlobalMemoryConfig {
    pub line_size: u32,
    pub check_row_bounds: bool,
    pub check_col_bounds: bool,
    pub matrix_layout: MatrixLayout,
    pub view_direction: ViewDirection,
}

impl Default for GlobalMemoryConfig {
    fn default() -> (r: Self)
        ensures
            r == (GlobalMemoryConfig {
                line_size: 1,
                check_row_bounds: false,
                check_col_bounds: false,
                matrix_layout: MatrixLayout::RowMajor,
                view_direction: ViewDirection::Fixed,
            }),
    {
        GlobalMemoryConfig {
            line_size: 1,
            check_row_bounds: false,
            check_col_bounds: false,
            matrix_layout: MatrixLayout::RowMajor,
            view_direction: ViewDirection::Fixed,
        }
    }
}

impl GlobalMemoryConfig {
    pub fn new(
        line_size: u32,
        check_row_bounds: bool,
        check_col_bounds: bool,
        matrix_layout: MatrixLayout,
        view_direction: ViewDirection,
    ) -> (r: Self)
        ensures
            r == (GlobalMemoryConfig {
                line_size,
                check_row_bounds,
                check_col_bounds,
                matrix_layout,
                view_direction,
            }),
    {
        GlobalMemoryConfig {
            line_size,
            check_row_bounds,
            check_col_bounds,
            matrix_layout,
            view_direction,
        }
    }

    /// Projects out the layout and bounds-check parts.
    pub fn as_global_layout_config(self) -> (r: GlobalLayoutConfig)
        ensures
            r == (GlobalLayoutConfig {
                matrix_layout: self.matrix_layout,
                check_row_bounds: self.check_row_bounds,
                check_col_bounds: self.check_col_bounds,
            }),
    {
        GlobalLayoutConfig {
            matrix_layout: self.matrix_layout,
            check_row_bounds: self.check_row_bounds,
            check_col_bounds: self.check_col_bounds,
        }
    }
}

/// Configuration of the naive batch matmul kernel, which reads its
/// operands whole: lhs row-major, rhs column-major, no bounds checks.
#[derive(Clone, Copy, Debug, PartialEq, Eq, Hash, Structural)]
pub struct NaiveMatmulConfig {}

impl NaiveMatmulConfig {
    pub fn lhs_global_layout_config(&self) -> (r: GlobalLayoutConfig)
        ensures
            r == (GlobalLayoutConfig {
                matrix_layout: MatrixLayout::RowMajor,
                check_row_bounds: false,
                check_col_bounds: false,
            }),
    {
        GlobalLayoutConfig {
            matrix_layout: MatrixLayout::RowMajor,
            check_row_bounds: false,
            check_col_bounds: false,
        }
    }

    pub fn rhs_global_layout_config(&self) -> (r: GlobalLayoutConfig)
        ensures
            r == (GlobalLayoutConfig {
                matrix_layout: MatrixLayout::ColMajor,
                check_row_bounds: false,
                check_col_bounds: false,
            }),
    {
        GlobalLayoutConfig {
            matrix_layout: MatrixLayout::ColMajor,
            check_row_bounds: false,
            check_col_bounds: false,
        }
    }

    pub fn out_global_layout_config(&self) -> (r: GlobalLayoutConfig)
        ensures
            r == (GlobalLayoutConfig {
                matrix_layout: MatrixLayout::RowMajor,
                check_row_bounds: false,
                check_col_bounds: false,
            }),
    {
        GlobalLayoutConfig {
            matrix_layout: MatrixLayout::RowMajor,
            check_row_bounds: false,
            check_col_bounds: false,
        }
    }
}

/// Configuration for partitioned batch matmul: a work-group-level config
/// together with the size of the slice of the output grid one
/// batch-level partition owns.
#[derive(Clone, Copy, Debug, PartialEq, Eq, Hash, Structural)]
pub struct PartitionedBatchConfig<G> {
    pub global_config: G,
    pub global_partition_size: GlobalPartitionSize,
}

impl<G> PartitionedBatchConfig<G> {
    /// Create a new config for partitioned batch matmul.
    pub fn new(global_config: G, global_partition_size: GlobalPartitionSize) -> (r: Self)
        ensures
            r.global_config == global_config,
            r.global_partition_size == global_partition_size,
    {
        PartitionedBatchConfig { global_config, global_partition_size }
    }
}

} // verus!
