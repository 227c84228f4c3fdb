use vstd::prelude::*;

use crate::dtypes::MatmulGlobalElems;

verus! {

/// Orientation of a matrix operand in global memory.
#[derive(Clone, Copy, Debug, PartialEq, Eq, Hash, Structural)]
pub enum MatrixLayout {
    RowMajor,
    ColMajor,
}

/// Number of lines (vectorized loads) read or written at once for each
/// operand.
#[derive(Clone, Copy, Debug, PartialEq, Eq, Hash, Structural)]
pub struct MatmulLineSizes {
    pub lhs: u8,
    pub rhs: u8,
    pub out: u8,
}

/// Immutable description of one matrix-multiplication problem: dimension
/// sizes, per-operand layout, and per-operand global element types.
#[derive(Clone, Copy, Debug, PartialEq, Eq, Hash, Structural)]
pub struct MatmulProblem {
    pub m: u32,
    pub n: u32,
    pub k: u32,
    pub batch: u32,
    pub lhs_layout: MatrixLayout,
    pub rhs_layout: MatrixLayout,
    pub global_dtypes: MatmulGlobalElems,
}

/// Per-axis size of the slice of the output grid one batch-level
/// partition owns.
#[derive(Clone, Copy, Debug, PartialEq, Eq, Hash, Structural)]
pub struct GlobalPartitionSize {
    pub m: u32,
    pub n: u32,
    pub batch: u32,
}

impl GlobalPartitionSize {
    pub fn new(m: u32, n: u32, batch: u32) -> (r: GlobalPartitionSize)
        ensures
            r == (GlobalPartitionSize { m, n, batch }),
    {
        GlobalPartitionSize { m, n, batch }
    }
}

} // verus!
