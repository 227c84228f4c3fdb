use cubek_matmul::dtypes::{MatmulGlobalElems, StorageKind};
use cubek_matmul::error::{InvalidConfigError, MatmulSetupError};
use cubek_matmul::problem::{MatmulProblem, MatrixLayout};
use cubek_matmul::tiling::{PartitionSize, StageSize, TileSize, TilingScheme};
use cubek_matmul::TilingBlueprint;

fn problem(m: u32, n: u32, k: u32, batch: u32) -> MatmulProblem {
    MatmulProblem {
        m,
        n,
        k,
        batch,
        lhs_layout: MatrixLayout::RowMajor,
        rhs_layout: MatrixLayout::RowMajor,
        global_dtypes: MatmulGlobalElems {
            lhs: StorageKind::F32,
            rhs: StorageKind::F32,
            out: StorageKind::F32,
        },
    }
}

#[test]
fn build_succeeds_for_positive_triple() {
    let scheme = TilingScheme::builder()
        .with_tile_size(TileSize::new(16, 16, 16))
        .with_partition_size(PartitionSize::new(2, 2, 1))
        .with_stage_size(StageSize::new(4, 4, 1))
        .build(100_000)
        .unwrap();
    assert_eq!(scheme.elements_per_stage_along_m(), 16 * 2 * 4);
    assert_eq!(scheme.elements_per_stage_along_n(), 16 * 2 * 4);
    assert_eq!(scheme.elements_per_stage_along_k(), 16 * 1 * 1);
    assert_eq!(scheme.elements_per_partition_along_m(), 16 * 2);
    assert_eq!(scheme.elements_per_partition_along_n(), 16 * 2);
    assert_eq!(scheme.elements_per_partition_along_k(), 16 * 1);
}

#[test]
fn build_applies_defaults_for_unset_axes() {
    let scheme = TilingScheme::builder()
        .with_tile_size(TileSize::new(8, 4, 2))
        .build(1_000)
        .unwrap();
    assert_eq!(scheme.partition_size, PartitionSize::new(1, 1, 1));
    assert_eq!(scheme.stage_size, StageSize::new(1, 1, 1));
    assert_eq!(scheme.elements_per_stage_along_m(), 8);
    assert_eq!(scheme.elements_per_stage_along_n(), 4);
    assert_eq!(scheme.elements_per_stage_along_k(), 2);
}

#[test]
fn build_rejects_zero_axis() {
    let r = TilingScheme::builder()
        .with_tile_size(TileSize::new(16, 0, 16))
        .build(1_000_000);
    assert_eq!(
        r,
        Err(MatmulSetupError::InvalidConfig(
            InvalidConfigError::ZeroTilingDimension
        ))
    );
}

#[test]
fn build_rejects_over_budget() {
    let r = TilingScheme::builder()
        .with_tile_size(TileSize::new(64, 64, 64))
        .with_stage_size(StageSize::new(4, 4, 1))
        .build(100);
    assert_eq!(
        r,
        Err(MatmulSetupError::InvalidConfig(
            InvalidConfigError::StageBudgetExceeded
        ))
    );
}

#[test]
fn check_bounds_set_iff_problem_does_not_divide() {
    // One work-group consumes 64 elements along each axis.
    let scheme = TilingScheme::builder()
        .with_tile_size(TileSize::new(16, 16, 16))
        .with_partition_size(PartitionSize::new(2, 2, 2))
        .with_stage_size(StageSize::new(2, 2, 2))
        .build(1_000_000)
        .unwrap();
    assert_eq!(scheme.elements_per_stage_along_m(), 64);

    let uneven = TilingBlueprint::builder(scheme, 32, &problem(130, 128, 64, 1)).build();
    assert!(uneven.check_m_bounds);
    assert!(!uneven.check_n_bounds);
    assert!(!uneven.check_k_bounds);

    let even = TilingBlueprint::builder(scheme, 32, &problem(128, 130, 65, 1)).build();
    assert!(!even.check_m_bounds);
    assert!(even.check_n_bounds);
    assert!(even.check_k_bounds);
}

#[test]
fn end_to_end_blueprint_for_reference_problem() {
    let scheme = TilingScheme::builder()
        .with_tile_size(TileSize::new(16, 16, 16))
        .with_partition_size(PartitionSize::new(2, 2, 1))
        .with_stage_size(StageSize::new(4, 4, 1))
        .build(1_000_000)
        .unwrap();
    assert_eq!(scheme.elements_per_stage_along_m(), 128);
    assert_eq!(scheme.elements_per_stage_along_n(), 128);
    assert_eq!(scheme.elements_per_stage_along_k(), 16);

    let bp = TilingBlueprint::builder(scheme, 32, &problem(256, 256, 64, 1)).build();
    // 256 % 128 == 0 and 64 % 16 == 0: no axis needs bounds checks.
    assert!(!bp.check_m_bounds);
    assert!(!bp.check_n_bounds);
    assert!(!bp.check_k_bounds);
    assert_eq!(bp.plane_dim, 32);
    assert_eq!(bp.tiling_scheme, scheme);
}
