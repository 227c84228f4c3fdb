use cubek_matmul::error::{InvalidConfigError, MatmulSetupError};
use cubek_matmul::resource::{cube_dim_validation, CubeDimResource, MaxGlobalReaderPlanes};
use cubek_matmul::specialization::{
    InputLoadFlow, LoadFlows, LoadingSides, MatmulPlaneCounts, PlaneFlowConfig,
    PlaneFlowPartitionRule, SpecializedLoadingSides, Specializer, SpecializerKind,
};

#[test]
fn units_convert_to_planes_when_divisible() {
    let r = CubeDimResource::Units(128).as_plane_resource(32);
    assert_eq!(r, Ok(CubeDimResource::Planes(4)));
}

#[test]
fn units_not_divisible_by_plane_dim_fail() {
    let r = CubeDimResource::Units(100).as_plane_resource(32);
    assert_eq!(
        r,
        Err(InvalidConfigError::UnitsNotDivisibleByPlaneDim {
            units: 100,
            plane_dim: 32
        })
    );
}

#[test]
fn plane_resolution_is_idempotent() {
    let once = CubeDimResource::Units(128).as_plane_resource(32).unwrap();
    let twice = once.as_plane_resource(32).unwrap();
    assert_eq!(once, twice);
    assert_eq!(twice, CubeDimResource::Planes(4));
}

#[test]
fn specialized_resource_resolves_to_total_planes() {
    let cfg = PlaneFlowConfig {
        counts: MatmulPlaneCounts {
            main_flow: 3,
            load_only: 1,
        },
        partition_rule: PlaneFlowPartitionRule::MainFlowFirst,
    };
    let r = CubeDimResource::Specialized(cfg).as_plane_resource(32);
    assert_eq!(r, Ok(CubeDimResource::Planes(4)));
}

#[test]
fn cube_dim_is_plane_dim_by_planes() {
    let dim = CubeDimResource::Units(128).to_cube_dim(32).unwrap();
    assert_eq!((dim.x, dim.y, dim.z), (32, 4, 1));
    assert_eq!(CubeDimResource::Planes(7).num_planes(32), Ok(7));
}

#[test]
fn plane_flow_config_from_resources() {
    let unspecialized = CubeDimResource::Planes(4).as_plane_flow_config(32).unwrap();
    assert_eq!(
        unspecialized,
        PlaneFlowConfig {
            counts: MatmulPlaneCounts {
                main_flow: 4,
                load_only: 0
            },
            partition_rule: PlaneFlowPartitionRule::MainFlowFirst,
        }
    );
    assert!(!unspecialized.has_specialization());

    let cfg = PlaneFlowConfig {
        counts: MatmulPlaneCounts {
            main_flow: 2,
            load_only: 2,
        },
        partition_rule: PlaneFlowPartitionRule::LoadOnlyFirst,
    };
    let passed = CubeDimResource::Specialized(cfg).as_plane_flow_config(32).unwrap();
    assert_eq!(passed, cfg);
    assert!(passed.has_specialization());
}

#[test]
fn cube_dim_validation_checks_unit_ceiling() {
    let dim = CubeDimResource::Units(128).to_cube_dim(32).unwrap();
    assert_eq!(cube_dim_validation(&dim, 1024), Ok(()));
    let r = cube_dim_validation(&dim, 64);
    assert!(matches!(
        r,
        Err(MatmulSetupError::Unavailable(
            cubek_matmul::error::MatmulAvailabilityError::CubeDimTooBig { .. }
        ))
    ));
}

#[test]
fn max_global_reader_planes_holds_both_bounds() {
    let m = MaxGlobalReaderPlanes::new(4, 8);
    assert_eq!((m.lhs, m.rhs), (4, 8));
}

#[test]
fn load_flows_specialization_flag() {
    let plain = LoadFlows::default();
    assert!(!plain.has_specialization());
    let spec = LoadFlows {
        lhs: InputLoadFlow::MainOnly,
        rhs: InputLoadFlow::LoadOnly,
    };
    assert!(spec.has_specialization());
}

#[test]
fn loading_sides_split_by_flow() {
    let sides = SpecializedLoadingSides::from_load_flows(LoadFlows {
        lhs: InputLoadFlow::MainOnly,
        rhs: InputLoadFlow::LoadOnly,
    });
    assert_eq!(sides.main_flow, LoadingSides::Lhs);
    assert_eq!(sides.load_only, LoadingSides::Rhs);

    let both_main = SpecializedLoadingSides::from_load_flows(LoadFlows::default());
    assert_eq!(both_main.main_flow, LoadingSides::Both);
    assert_eq!(both_main.load_only, LoadingSides::Neither);
}

#[test]
fn specializer_captures_role_split() {
    let cfg = PlaneFlowConfig {
        counts: MatmulPlaneCounts {
            main_flow: 6,
            load_only: 2,
        },
        partition_rule: PlaneFlowPartitionRule::LoadOnlyFirst,
    };
    let sides = SpecializedLoadingSides {
        main_flow: LoadingSides::Lhs,
        load_only: LoadingSides::Rhs,
    };
    let s = Specializer::new(cfg, sides);
    assert_eq!(
        s.kind,
        SpecializerKind::Specialized {
            main_flow_loading_side: LoadingSides::Lhs,
            load_only_loading_side: LoadingSides::Rhs,
            role_rule_config: PlaneFlowPartitionRule::LoadOnlyFirst,
        }
    );

    let plain = Specializer::new(PlaneFlowConfig::new_unspecialized(8), sides);
    assert_eq!(plain.kind, SpecializerKind::NotSpecialized);
}

#[test]
fn plane_counts_total() {
    let counts = MatmulPlaneCounts {
        main_flow: 6,
        load_only: 2,
    };
    assert_eq!(counts.total_count(), 8);
}
