use cubek_matmul::cube_count::{
    cube_count_plan_from_blueprint, CubeCountPlan, CubeCountStrategy, SmAllocation,
};
use cubek_matmul::dtypes::{MatmulGlobalElems, StorageKind};
use cubek_matmul::error::{MatmulAvailabilityError, MatmulSetupError};
use cubek_matmul::global_order::{div_ceil_u32, GlobalOrder, GlobalOrderStrategy};
use cubek_matmul::problem::{MatmulProblem, MatrixLayout};
use cubek_matmul::tiling::{PartitionSize, StageSize, TileSize, TilingScheme};

fn problem(m: u32, n: u32, k: u32, batch: u32) -> MatmulProblem {
    MatmulProblem {
        m,
        n,
        k,
        batch,
        lhs_layout: MatrixLayout::RowMajor,
        rhs_layout: MatrixLayout::RowMajor,
        global_dtypes: MatmulGlobalElems {
            lhs: StorageKind::F32,
            rhs: StorageKind::F32,
            out: StorageKind::F32,
        },
    }
}

/// A scheme whose work-group consumes 128 x 128 x 16 elements.
fn scheme_128(budget: u32) -> TilingScheme {
    TilingScheme::builder()
        .with_tile_size(TileSize::new(16, 16, 16))
        .with_partition_size(PartitionSize::new(2, 2, 1))
        .with_stage_size(StageSize::new(4, 4, 1))
        .build(budget)
        .unwrap()
}

#[test]
fn swizzled_order_is_a_bijection_on_10_by_4() {
    let m_blocks = 10u32;
    let n_blocks = 4u32;
    let order = GlobalOrder::SwizzleRowMajor(2);
    let mut visits = [[0u32; 4]; 10];
    for i in 0..m_blocks * n_blocks {
        let (m, n) = order.map_index(i, m_blocks, n_blocks);
        assert!(m < m_blocks && n < n_blocks);
        visits[m as usize][n as usize] += 1;
    }
    for row in visits.iter() {
        for count in row.iter() {
            assert_eq!(*count, 1);
        }
    }
}

#[test]
fn swizzled_order_folds_pairs_of_rows() {
    // With w = 2, the scan walks both m-rows of a super-row before
    // advancing to the next n-block.
    let order = GlobalOrder::SwizzleRowMajor(2);
    assert_eq!(order.map_index(0, 10, 4), (0, 0));
    assert_eq!(order.map_index(1, 10, 4), (1, 0));
    assert_eq!(order.map_index(2, 10, 4), (0, 1));
    assert_eq!(order.map_index(3, 10, 4), (1, 1));
    assert_eq!(order.map_index(8, 10, 4), (2, 0));
}

#[test]
fn row_major_order_scans_n_first() {
    let order = GlobalOrder::RowMajor;
    assert_eq!(order.map_index(0, 10, 4), (0, 0));
    assert_eq!(order.map_index(5, 10, 4), (1, 1));
    assert_eq!(order.map_index(39, 10, 4), (9, 3));
}

#[test]
fn swizzle_strategy_degenerates_when_width_does_not_divide() {
    let scheme = scheme_128(1_000_000);
    // 256 elements -> 2 rows of blocks: divisible by 2.
    let kept = GlobalOrderStrategy::SwizzleRow { m: 256, w: 2 }.into_order(&scheme);
    assert_eq!(kept, GlobalOrder::SwizzleRowMajor(2));
    // 384 elements -> 3 rows of blocks: not divisible by 2.
    let dropped = GlobalOrderStrategy::SwizzleRow { m: 384, w: 2 }.into_order(&scheme);
    assert_eq!(dropped, GlobalOrder::RowMajor);
    let standard = GlobalOrderStrategy::Standard.into_order(&scheme);
    assert_eq!(standard, GlobalOrder::RowMajor);
}

#[test]
fn div_ceil_rounds_up() {
    assert_eq!(div_ceil_u32(256, 128), 2);
    assert_eq!(div_ceil_u32(257, 128), 3);
    assert_eq!(div_ceil_u32(0, 128), 0);
    assert_eq!(div_ceil_u32(1, 128), 1);
}

#[test]
fn from_problem_plan_matches_block_grid() {
    let scheme = scheme_128(1_000_000);
    let plan = cube_count_plan_from_blueprint(
        CubeCountStrategy::FromProblem,
        &scheme,
        &problem(256, 256, 64, 3),
        &(65535, 65535, 65535),
    )
    .unwrap();
    assert_eq!(
        plan,
        CubeCountPlan::FromProblem {
            m_cubes: 2,
            n_cubes: 2,
            batch_cubes: 3
        }
    );
    assert_eq!(plan.cube_count(), (2, 2, 3));
}

#[test]
fn sm_plan_never_under_covers() {
    let scheme = scheme_128(1_000_000);
    let p = problem(256, 384, 64, 2);
    // 2 x 3 x 2 = 12 work-groups needed.
    let from_problem = cube_count_plan_from_blueprint(
        CubeCountStrategy::FromProblem,
        &scheme,
        &p,
        &(65535, 65535, 65535),
    )
    .unwrap();
    let (fx, fy, fz) = from_problem.cube_count();
    assert_eq!(fx * fy * fz, 12);

    let sm = cube_count_plan_from_blueprint(
        CubeCountStrategy::Sm {
            cubes_first: true,
            num_sms: 5,
            sm_usage: SmAllocation::Exact,
        },
        &scheme,
        &p,
        &(65535, 65535, 65535),
    )
    .unwrap();
    assert_eq!(
        sm,
        CubeCountPlan::Sm {
            num_sms: 5,
            cubes_per_sm: 3,
            cubes_first: true
        }
    );
    let (sx, sy, sz) = sm.cube_count();
    assert_eq!((sx, sy, sz), (3, 5, 1));
    assert!(sx * sy * sz >= fx * fy * fz);

    let sm_flipped = cube_count_plan_from_blueprint(
        CubeCountStrategy::Sm {
            cubes_first: false,
            num_sms: 5,
            sm_usage: SmAllocation::Exact,
        },
        &scheme,
        &p,
        &(65535, 65535, 65535),
    )
    .unwrap();
    assert_eq!(sm_flipped.cube_count(), (5, 3, 1));
}

#[test]
fn sm_plan_with_fixed_target_never_under_covers() {
    let scheme = scheme_128(1_000_000);
    let p = problem(256, 384, 64, 2);
    // A target of 1 per SM would under-cover 12 work-groups on 5 SMs;
    // it is raised to the exact count.
    let raised = cube_count_plan_from_blueprint(
        CubeCountStrategy::Sm {
            cubes_first: true,
            num_sms: 5,
            sm_usage: SmAllocation::Fixed { cubes_per_sm: 1 },
        },
        &scheme,
        &p,
        &(65535, 65535, 65535),
    )
    .unwrap();
    assert_eq!(
        raised,
        CubeCountPlan::Sm {
            num_sms: 5,
            cubes_per_sm: 3,
            cubes_first: true
        }
    );
    // A target of 4 per SM over-covers and is kept.
    let kept = cube_count_plan_from_blueprint(
        CubeCountStrategy::Sm {
            cubes_first: true,
            num_sms: 5,
            sm_usage: SmAllocation::Fixed { cubes_per_sm: 4 },
        },
        &scheme,
        &p,
        &(65535, 65535, 65535),
    )
    .unwrap();
    assert_eq!(
        kept,
        CubeCountPlan::Sm {
            num_sms: 5,
            cubes_per_sm: 4,
            cubes_first: true
        }
    );
}

#[test]
fn sm_strategy_without_sms_falls_back_to_from_problem() {
    let scheme = scheme_128(1_000_000);
    let plan = cube_count_plan_from_blueprint(
        CubeCountStrategy::Sm {
            cubes_first: true,
            num_sms: 0,
            sm_usage: SmAllocation::Exact,
        },
        &scheme,
        &problem(256, 256, 64, 1),
        &(65535, 65535, 65535),
    )
    .unwrap();
    assert_eq!(
        plan,
        CubeCountPlan::FromProblem {
            m_cubes: 2,
            n_cubes: 2,
            batch_cubes: 1
        }
    );
}

#[test]
fn flattened_plan_uses_one_axis() {
    let scheme = scheme_128(1_000_000);
    let plan = cube_count_plan_from_blueprint(
        CubeCountStrategy::Flattened,
        &scheme,
        &problem(256, 384, 64, 2),
        &(65535, 65535, 65535),
    )
    .unwrap();
    assert_eq!(plan, CubeCountPlan::Flattened { size: 12 });
    assert_eq!(plan.cube_count(), (12, 1, 1));
}

#[test]
fn spread_plan_fits_under_axis_maxima_and_covers() {
    let scheme = scheme_128(1_000_000);
    let p = problem(256, 384, 64, 2);
    // 12 work-groups, at most 5 per axis.
    let plan =
        cube_count_plan_from_blueprint(CubeCountStrategy::Spread, &scheme, &p, &(5, 5, 5)).unwrap();
    assert_eq!(plan, CubeCountPlan::Spread { x: 5, y: 3, z: 1 });
    let (x, y, z) = plan.cube_count();
    assert!(x <= 5 && y <= 5 && z <= 5);
    assert!(x * y * z >= 12);
}

#[test]
fn spread_plan_rejects_an_impossible_grid() {
    let scheme = scheme_128(1_000_000);
    let r = cube_count_plan_from_blueprint(
        CubeCountStrategy::Spread,
        &scheme,
        &problem(256, 384, 64, 2),
        &(2, 2, 2),
    );
    assert_eq!(
        r,
        Err(MatmulSetupError::Unavailable(
            MatmulAvailabilityError::CubeCountTooBig {
                max_x: 2,
                max_y: 2,
                max_z: 2
            }
        ))
    );
}

#[test]
fn grid_too_small_is_an_availability_error() {
    let scheme = scheme_128(1_000_000);
    let r = cube_count_plan_from_blueprint(
        CubeCountStrategy::FromProblem,
        &scheme,
        &problem(256, 256, 64, 7),
        &(65535, 65535, 2),
    );
    assert!(matches!(
        r,
        Err(MatmulSetupError::Unavailable(
            MatmulAvailabilityError::CubeCountTooBig { .. }
        ))
    ));
}

#[test]
fn cube_positions_map_back_to_blocks() {
    let plan = CubeCountPlan::FromProblem {
        m_cubes: 2,
        n_cubes: 2,
        batch_cubes: 2,
    };
    // Position (1, 1, 1) is the 8th work-group: batch 1, block (1, 1).
    let block = plan.cube_pos_to_block(1, 1, 1, GlobalOrder::RowMajor, 2, 2, 2);
    assert_eq!(block, Some((1, 1, 1)));
    let first = plan.cube_pos_to_block(0, 0, 0, GlobalOrder::RowMajor, 2, 2, 2);
    assert_eq!(first, Some((0, 0, 0)));
}

#[test]
fn over_covering_positions_own_no_block() {
    // 10 launched work-groups for 8 blocks of work.
    let plan = CubeCountPlan::Flattened { size: 10 };
    let covered = plan.cube_pos_to_block(7, 0, 0, GlobalOrder::RowMajor, 2, 2, 2);
    assert_eq!(covered, Some((1, 1, 1)));
    let idle = plan.cube_pos_to_block(9, 0, 0, GlobalOrder::RowMajor, 2, 2, 2);
    assert_eq!(idle, None);
}
