//! Work-partitioning and execution-blueprint planner for tiled
//! matrix-multiplication kernels on massively parallel accelerators.
//!
//! Given a problem description and a snapshot of the device's hardware
//! limits, the planner produces a fully resolved execution blueprint: a
//! hierarchical blocking scheme, a mapping from logical blocks of work to
//! physical grid positions, a launch shape, and a load/compute overlap
//! strategy. Invalid blueprints are rejected before any kernel launch.

pub mod blueprint;
pub mod cube_count;
pub mod dtypes;
pub mod error;
pub mod global_order;
pub mod hypercube;
pub mod launch;
pub mod memory;
pub mod problem;
pub mod reduce;
pub mod resource;
pub mod routines;
pub mod specialization;
pub mod test_mode;
pub mod tiling;
pub mod validate;

pub use blueprint::{
    Blueprint, LoadingPrecomputeStrategy, MultiRowStrategy, PartitionBuffering, ReaderMode,
    SwizzleMode, SwizzleModes, TilingBlueprint, TilingBlueprintBuilder,
};
pub use cube_count::{CubeCountPlan, CubeCountStrategy, SmAllocation};
pub use dtypes::{MatmulElems, MatmulGlobalElems, MatmulIdent, StorageKind};
pub use error::{InvalidConfigError, MatmulAvailabilityError, MatmulSetupError};
pub use global_order::{GlobalOrder, GlobalOrderStrategy};
pub use hypercube::{HypercubeBlueprint, HypercubeBlueprintBuilder};
pub use launch::{
    AcceleratedTileKind, AsyncPartialReadingStrategy, PartialReadingStrategy, ReadingStrategy,
    Strategy,
};
pub use memory::{
    GlobalLayoutConfig, GlobalMemoryConfig, NaiveMatmulConfig, PartitionedBatchConfig,
    ViewDirection,
};
pub use problem::{GlobalPartitionSize, MatmulLineSizes, MatmulProblem, MatrixLayout};
pub use reduce::{BoundChecks, IdleMode, LineMode, ReduceAutotuneKey};
pub use resource::{CubeDimResource, MaxGlobalReaderPlanes};
pub use routines::{BlueprintStrategy, DeviceSettings, LaunchInfo};
pub use specialization::{
    InputLoadFlow, LoadFlows, LoadingSides, MatmulPlaneCounts, PlaneFlowConfig,
    PlaneFlowPartitionRule, SpecializedLoadingSides, Specializer, SpecializerKind,
};
pub use test_mode::TestMode;
pub use tiling::{PartitionSize, StageSize, TileSize, TilingScheme, TilingSchemeBuilder};
