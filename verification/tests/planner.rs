use cubek_matmul::blueprint::{PartitionBuffering, SwizzleMode, SwizzleModes};
use cubek_matmul::cube_count::CubeCountPlan;
use cubek_matmul::dtypes::{adjust_dtypes, MatmulElems, MatmulGlobalElems, MatmulIdent, StorageKind};
use cubek_matmul::error::{InvalidConfigError, MatmulSetupError};
use cubek_matmul::global_order::GlobalOrder;
use cubek_matmul::launch::{auto_fallback, auto_initial, AcceleratedTileKind, ReadingStrategy, Strategy};
use cubek_matmul::problem::{MatmulLineSizes, MatmulProblem, MatrixLayout};
use cubek_matmul::resource::CubeDimResource;
use cubek_matmul::routines::selector::{MatmulSelection, Selection, TileSizeSelection};
use cubek_matmul::routines::simple_unit::{SimpleUnitAlgorithm, SimpleUnitSelectionArgs};
use cubek_matmul::routines::vecmat::{DoubleVecMatAlgorithm, SimpleVecMatAlgorithm, VecMatStrategy};
use cubek_matmul::routines::{BlueprintStrategy, DeviceSettings};
use cubek_matmul::tiling::{PartitionSize, StageSize, TileSize, TilingScheme};
use cubek_matmul::validate::validate_blueprint;
use cubek_matmul::{Blueprint, TilingBlueprint};

fn problem(m: u32, n: u32, k: u32, batch: u32) -> MatmulProblem {
    MatmulProblem {
        m,
        n,
        k,
        batch,
        lhs_layout: MatrixLayout::RowMajor,
        rhs_layout: MatrixLayout::ColMajor,
        global_dtypes: MatmulGlobalElems {
            lhs: StorageKind::F32,
            rhs: StorageKind::F32,
            out: StorageKind::F32,
        },
    }
}

fn device(num_sms: Option<u32>) -> DeviceSettings {
    DeviceSettings::new(
        32,
        MatmulLineSizes {
            lhs: 4,
            rhs: 4,
            out: 4,
        },
        (65535, 65535, 65535),
        1024,
        65536,
        num_sms,
        false,
        false,
    )
}

#[test]
fn device_settings_default_plane_width() {
    let ds = DeviceSettings::new(
        0,
        MatmulLineSizes {
            lhs: 1,
            rhs: 1,
            out: 1,
        },
        (1, 1, 1),
        64,
        1024,
        None,
        false,
        false,
    );
    assert_eq!(ds.plane_dim, 32);
}

#[test]
fn prepare_simple_unit_infers_a_full_launch() {
    let p = problem(256, 256, 64, 1);
    let ds = device(None);
    let info = SimpleUnitAlgorithm::prepare(
        &p,
        &ds,
        &BlueprintStrategy::Inferred(SimpleUnitSelectionArgs {
            tile_size: TileSizeSelection::MinTileSize,
        }),
    )
    .unwrap();
    // Min tile 4x4x4, stage (32/4) x 4 scaled by 2 on m: 64 units, 2 planes.
    let ts = info.blueprint.tiling_scheme;
    assert_eq!(ts.tile_size, TileSize::new(4, 4, 4));
    assert_eq!(ts.partition_size, PartitionSize::new(1, 1, 1));
    assert_eq!(ts.stage_size, StageSize::new(16, 4, 1));
    assert_eq!((info.cube_dim.x, info.cube_dim.y, info.cube_dim.z), (32, 2, 1));
    // 256 / 64 = 4 blocks along m, 256 / 16 = 16 along n.
    assert_eq!(
        info.cube_count_plan,
        CubeCountPlan::FromProblem {
            m_cubes: 4,
            n_cubes: 16,
            batch_cubes: 1
        }
    );
    // Stage types mirror the globals; f32 accumulates in f32.
    assert_eq!(info.dtypes.lhs_stage, StorageKind::F32);
    assert_eq!(info.dtypes.acc_register, StorageKind::F32);
}

#[test]
fn prepare_rejects_plane_dim_mismatch() {
    let p = problem(256, 256, 64, 1);
    let ds = device(None);
    let scheme = TilingScheme::builder()
        .with_tile_size(TileSize::new(4, 4, 4))
        .with_stage_size(StageSize::new(16, 4, 1))
        .build(65536)
        .unwrap();
    let forced = TilingBlueprint::builder(scheme, 64, &p).build();
    let r = SimpleUnitAlgorithm::prepare(&p, &ds, &BlueprintStrategy::Forced(forced));
    assert_eq!(
        r.err().map(|e| match e {
            MatmulSetupError::InvalidConfig(ic) => ic,
            MatmulSetupError::Unavailable(_) => panic!("wrong error kind"),
        }),
        Some(InvalidConfigError::PlaneDimMismatch {
            expected: 32,
            actual: 64
        })
    );
}

#[test]
fn prepare_rejects_a_unit_count_beyond_u32() {
    let p = problem(256, 256, 64, 1);
    let ds = device(None);
    // 70000 x 70000 stage positions would ask for more units than a
    // u32 can count.
    let scheme = TilingScheme::builder()
        .with_tile_size(TileSize::new(1, 1, 1))
        .with_stage_size(StageSize::new(70_000, 70_000, 1))
        .build(u32::MAX)
        .unwrap();
    let forced = TilingBlueprint::builder(scheme, 32, &p).build();
    let r = SimpleUnitAlgorithm::prepare(&p, &ds, &BlueprintStrategy::Forced(forced));
    assert_eq!(
        r.err(),
        Some(MatmulSetupError::InvalidConfig(
            InvalidConfigError::UnitCountOverflow
        ))
    );
}

#[test]
fn prepare_vecmat_uses_swizzle_and_sm_grid() {
    let p = problem(256, 256, 64, 1);
    let ds = device(Some(16));
    let info = SimpleVecMatAlgorithm::prepare(
        &p,
        &ds,
        &BlueprintStrategy::Inferred(VecMatStrategy::default()),
    )
    .unwrap();
    let ts = info.blueprint.tiling_scheme;
    // One output line per plane: tile 1 x 4 x (32 * 4).
    assert_eq!(ts.tile_size, TileSize::new(1, 4, 128));
    assert_eq!(ts.stage_size, StageSize::new(1, 1, 1));
    // 256 m-rows of blocks: even, so the swizzle of width 2 is kept.
    assert_eq!(
        info.blueprint.hypercube_blueprint.global_order,
        GlobalOrder::SwizzleRowMajor(2)
    );
    // 256 * 64 = 16384 work-groups over 16 SMs, cubes first.
    assert_eq!(
        info.cube_count_plan,
        CubeCountPlan::Sm {
            num_sms: 16,
            cubes_per_sm: 1024,
            cubes_first: true
        }
    );
    assert_eq!((info.cube_dim.x, info.cube_dim.y, info.cube_dim.z), (32, 1, 1));
    assert_eq!(info.blueprint.partition_buffering, PartitionBuffering::Single);
}

#[test]
fn double_vecmat_plans_like_the_single_variant() {
    let p = problem(256, 256, 64, 1);
    let ds = device(None);
    let single = SimpleVecMatAlgorithm::prepare(
        &p,
        &ds,
        &BlueprintStrategy::Inferred(VecMatStrategy::default()),
    )
    .unwrap();
    let double = DoubleVecMatAlgorithm::prepare(
        &p,
        &ds,
        &BlueprintStrategy::Inferred(VecMatStrategy::default()),
    )
    .unwrap();
    assert_eq!(single.blueprint, double.blueprint);
    assert_eq!(single.cube_count_plan, double.cube_count_plan);
}

#[test]
fn validation_is_repeatable_on_a_validated_blueprint() {
    let p = problem(256, 256, 64, 1);
    let ds = device(None);
    let scheme = TilingScheme::builder()
        .with_tile_size(TileSize::new(4, 4, 4))
        .with_stage_size(StageSize::new(16, 4, 1))
        .build(65536)
        .unwrap();
    let bp = TilingBlueprint::builder(scheme, 32, &p).build();
    let resource = CubeDimResource::Units(64);
    assert_eq!(validate_blueprint(&bp, resource, &ds), Ok(()));
    // Re-validating the already-validated blueprint against the same
    // problem and hardware succeeds again.
    assert_eq!(validate_blueprint(&bp, resource, &ds), Ok(()));
}

#[test]
fn validation_rejects_inconsistent_specialization() {
    let p = problem(256, 256, 64, 1);
    let ds = device(None);
    let scheme = TilingScheme::builder()
        .with_tile_size(TileSize::new(4, 4, 4))
        .with_stage_size(StageSize::new(16, 4, 1))
        .build(65536)
        .unwrap();
    let bp = TilingBlueprint::builder(scheme, 32, &p)
        .load_specialization_config(cubek_matmul::specialization::LoadFlows {
            lhs: cubek_matmul::specialization::InputLoadFlow::MainOnly,
            rhs: cubek_matmul::specialization::InputLoadFlow::LoadOnly,
        })
        .build();
    // A role-specialized pipeline with a plain unit resource is
    // self-contradictory.
    let r = validate_blueprint(&bp, CubeDimResource::Units(64), &ds);
    assert_eq!(
        r,
        Err(MatmulSetupError::InvalidConfig(
            InvalidConfigError::InvalidPlaneFlowPartition
        ))
    );
}

#[test]
fn validation_rejects_oversubscribed_work_group() {
    let p = problem(256, 256, 64, 1);
    let mut ds = device(None);
    ds.max_units_per_cube = 32;
    let scheme = TilingScheme::builder()
        .with_tile_size(TileSize::new(4, 4, 4))
        .with_stage_size(StageSize::new(16, 4, 1))
        .build(65536)
        .unwrap();
    let bp = TilingBlueprint::builder(scheme, 32, &p).build();
    let r = validate_blueprint(&bp, CubeDimResource::Units(64), &ds);
    assert!(matches!(
        r,
        Err(MatmulSetupError::Unavailable(
            cubek_matmul::error::MatmulAvailabilityError::CubeDimTooBig { .. }
        ))
    ));
}

#[test]
fn auto_falls_back_only_on_unavailable() {
    let unavailable = MatmulSetupError::Unavailable(
        cubek_matmul::error::MatmulAvailabilityError::CubeCountTooBig {
            max_x: 1,
            max_y: 1,
            max_z: 1,
        },
    );
    match auto_fallback(&unavailable) {
        Some(Strategy::SimpleUnit(Selection::Inferred(args))) => {
            assert_eq!(args.tile_size, TileSizeSelection::MinTileSize);
        }
        other => panic!("unexpected fallback {other:?}"),
    }
    let invalid = MatmulSetupError::InvalidConfig(InvalidConfigError::ZeroTilingDimension);
    assert!(auto_fallback(&invalid).is_none());
    assert!(invalid.is_unavailable() == false);
    assert!(unavailable.is_unavailable());

    match auto_initial() {
        Strategy::Simple {
            read_strategy,
            selection: Selection::Inferred(_),
            tile_kind,
        } => {
            assert_eq!(read_strategy, ReadingStrategy::Cyclic);
            assert_eq!(tile_kind, AcceleratedTileKind::Cmma);
        }
        other => panic!("unexpected first attempt {other:?}"),
    }
}

#[test]
fn half_precision_outputs_accumulate_in_f32() {
    let elems = MatmulElems::from_globals(&MatmulGlobalElems {
        lhs: StorageKind::F16,
        rhs: StorageKind::F16,
        out: StorageKind::F16,
    });
    assert_eq!(elems.acc_global, StorageKind::F16);
    assert_eq!(elems.acc_stage, StorageKind::F32);
    assert_eq!(elems.acc_register, StorageKind::F32);
    assert_eq!(elems.lhs_stage, StorageKind::F16);
}

#[test]
fn element_accessors_follow_the_operand() {
    let mut elems = MatmulElems::from_single_dtype(StorageKind::Bf16);
    assert_eq!(elems.global(MatmulIdent::Lhs), StorageKind::Bf16);
    assert_eq!(elems.stage(MatmulIdent::Out), StorageKind::Bf16);
    assert_eq!(elems.register(MatmulIdent::Rhs), StorageKind::Bf16);
    let globals = elems.as_global_elems();
    assert_eq!(globals.out, StorageKind::Bf16);
    elems.acc_global = StorageKind::F32;
    elems.adjust_stage_dtypes();
    assert_eq!(elems.acc_stage, StorageKind::F32);
}

#[test]
fn dtype_downgrade_is_best_effort() {
    let mut supported = MatmulElems::from_single_dtype(StorageKind::F32);
    adjust_dtypes(&mut supported, true, true, false);
    assert_eq!(supported.lhs_stage, StorageKind::Tf32);
    assert_eq!(supported.rhs_register, StorageKind::Tf32);
    assert_eq!(supported.lhs_global, StorageKind::F32);

    // Unsupported downgrade keeps the original, safer types.
    let mut unsupported = MatmulElems::from_single_dtype(StorageKind::F32);
    adjust_dtypes(&mut unsupported, true, false, false);
    assert_eq!(unsupported.lhs_stage, StorageKind::F32);

    // No accelerator: nothing changes either.
    let mut plain = MatmulElems::from_single_dtype(StorageKind::F32);
    adjust_dtypes(&mut plain, false, true, true);
    assert_eq!(plain.lhs_stage, StorageKind::F32);

    let mut flex = MatmulElems::from_single_dtype(StorageKind::Flex32);
    adjust_dtypes(&mut flex, true, false, true);
    assert_eq!(flex.lhs_stage, StorageKind::F16);
    assert_eq!(flex.lhs_register, StorageKind::F16);
}

#[test]
fn layout_configs_pair_axes_with_bounds() {
    let p = problem(130, 256, 70, 1);
    let scheme = TilingScheme::builder()
        .with_tile_size(TileSize::new(16, 16, 16))
        .with_partition_size(PartitionSize::new(2, 2, 1))
        .with_stage_size(StageSize::new(4, 4, 1))
        .build(1_000_000)
        .unwrap();
    let bp = TilingBlueprint::builder(scheme, 32, &p).build();
    assert!(bp.check_m_bounds && !bp.check_n_bounds && bp.check_k_bounds);

    let lhs = bp.lhs_global_layout_config();
    assert_eq!(lhs.matrix_layout, MatrixLayout::RowMajor);
    assert!(lhs.check_row_bounds && lhs.check_col_bounds);

    let rhs = bp.rhs_global_layout_config();
    assert_eq!(rhs.matrix_layout, MatrixLayout::ColMajor);
    assert!(rhs.check_row_bounds && !rhs.check_col_bounds);

    let out = bp.out_global_layout_config();
    assert_eq!(out.matrix_layout, MatrixLayout::RowMajor);
    assert!(out.check_row_bounds && !out.check_col_bounds);
}

#[test]
fn swizzle_modes_flag_any_swizzled_operand() {
    assert!(!SwizzleModes::default().has_swizzle());
    let one = SwizzleModes {
        rhs: SwizzleMode::B64,
        ..SwizzleModes::default()
    };
    assert!(one.has_swizzle());
}

#[test]
fn selection_prefers_a_forced_choice() {
    let scheme = TilingScheme::builder().build(1_000).unwrap();
    let sel = MatmulSelection {
        tiling_scheme: scheme,
        plane_dim: 32,
    };
    match Selection::<SimpleUnitSelectionArgs>::maybe_forced_default(&Some(sel)) {
        Selection::Forced(f) => assert_eq!(f, sel),
        Selection::Inferred(_) => panic!("expected a forced selection"),
    }
    match Selection::<SimpleUnitSelectionArgs>::maybe_forced_default(&None) {
        Selection::Inferred(args) => assert_eq!(args.tile_size, TileSizeSelection::MinTileSize),
        Selection::Forced(_) => panic!("expected an inferred selection"),
    }
    let args = SimpleUnitSelectionArgs {
        tile_size: TileSizeSelection::MaxTileSize,
    };
    match Selection::maybe_forced_or(&None, &args) {
        Selection::Inferred(a) => assert_eq!(a, args),
        Selection::Forced(_) => panic!("expected the given hints"),
    }
}

#[test]
fn cube_launch_info_resolves_dim_and_plan() {
    let p = problem(256, 256, 64, 1);
    let ds = device(None);
    let scheme = TilingScheme::builder()
        .with_tile_size(TileSize::new(16, 16, 16))
        .with_partition_size(PartitionSize::new(2, 2, 1))
        .with_stage_size(StageSize::new(4, 4, 1))
        .build(65536)
        .unwrap();
    let bp = TilingBlueprint::builder(scheme, 32, &p).build();
    let (dim, plan) = bp
        .cube_launch_info(CubeDimResource::Planes(4), &p, &ds)
        .unwrap();
    assert_eq!((dim.x, dim.y, dim.z), (32, 4, 1));
    assert_eq!(
        plan,
        CubeCountPlan::FromProblem {
            m_cubes: 2,
            n_cubes: 2,
            batch_cubes: 1
        }
    );
}
