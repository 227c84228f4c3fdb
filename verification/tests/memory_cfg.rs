use cubek_matmul::blueprint::{LoadingPrecomputeStrategy, ReaderMode};
use cubek_matmul::cube_count::CubeCountStrategy;
use cubek_matmul::global_order::GlobalOrder;
use cubek_matmul::hypercube::HypercubeBlueprint;
use cubek_matmul::memory::{
    GlobalLayoutConfig, GlobalMemoryConfig, NaiveMatmulConfig, PartitionedBatchConfig,
    ViewDirection,
};
use cubek_matmul::dtypes::{MatmulGlobalElems, StorageKind};
use cubek_matmul::problem::{GlobalPartitionSize, MatmulProblem, MatrixLayout};
use cubek_matmul::tiling::{StageSize, TileSize, TilingScheme};
use cubek_matmul::TilingBlueprint;

#[test]
fn global_memory_config_projects_layout() {
    let cfg = GlobalMemoryConfig::new(4, true, false, MatrixLayout::ColMajor, ViewDirection::Row);
    assert_eq!(cfg.line_size, 4);
    assert_eq!(
        cfg.as_global_layout_config(),
        GlobalLayoutConfig {
            matrix_layout: MatrixLayout::ColMajor,
            check_row_bounds: true,
            check_col_bounds: false,
        }
    );
    let d = GlobalMemoryConfig::default();
    assert_eq!(d.line_size, 1);
    assert_eq!(d.matrix_layout, MatrixLayout::RowMajor);
    assert_eq!(d.view_direction, ViewDirection::Fixed);
}

#[test]
fn naive_config_reads_whole_operands() {
    let cfg = NaiveMatmulConfig {};
    assert_eq!(
        cfg.lhs_global_layout_config().matrix_layout,
        MatrixLayout::RowMajor
    );
    assert_eq!(
        cfg.rhs_global_layout_config().matrix_layout,
        MatrixLayout::ColMajor
    );
    assert!(!cfg.out_global_layout_config().check_row_bounds);
}

#[test]
fn partitioned_batch_config_holds_its_parts() {
    let inner = GlobalMemoryConfig::default();
    let size = GlobalPartitionSize::new(2, 3, 4);
    let cfg = PartitionedBatchConfig::new(inner, size);
    assert_eq!(cfg.global_config, inner);
    assert_eq!(cfg.global_partition_size, size);
}

#[test]
fn hypercube_builder_applies_defaults() {
    let scheme = TilingScheme::builder()
        .with_tile_size(TileSize::new(4, 4, 4))
        .build(1_000)
        .unwrap();
    let hc = HypercubeBlueprint::builder(&scheme).build();
    assert_eq!(hc.global_order, GlobalOrder::RowMajor);
    assert_eq!(hc.cube_count_strategy, CubeCountStrategy::FromProblem);

    let custom = HypercubeBlueprint::builder(&scheme)
        .cube_count_strategy(CubeCountStrategy::Flattened)
        .build();
    assert_eq!(custom.cube_count_strategy, CubeCountStrategy::Flattened);
}

#[test]
fn blueprint_builder_setters_take_effect() {
    let scheme = TilingScheme::builder()
        .with_tile_size(TileSize::new(4, 4, 4))
        .with_stage_size(StageSize::new(2, 2, 1))
        .build(1_000)
        .unwrap();
    let p = MatmulProblem {
        m: 64,
        n: 64,
        k: 64,
        batch: 1,
        lhs_layout: MatrixLayout::RowMajor,
        rhs_layout: MatrixLayout::RowMajor,
        global_dtypes: MatmulGlobalElems {
            lhs: StorageKind::F32,
            rhs: StorageKind::F32,
            out: StorageKind::F32,
        },
    };
    let bp = TilingBlueprint::builder(scheme, 32, &p)
        .reader_mode(ReaderMode::Relaxed)
        .loading_precompute_strategy(LoadingPrecomputeStrategy::Always)
        .build();
    assert_eq!(bp.reader_mode, ReaderMode::Relaxed);
    assert!(bp.loading_precompute_strategy.enabled());
}
