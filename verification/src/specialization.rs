use vstd::prelude::*;

verus! {

/// Role of one input operand in a specialized pipeline: loaded by the
/// main compute flow, or handed off to load-only planes.
#[derive(Clone, Copy, Debug, PartialEq, Eq, Hash, Structural)]
pub enum InputLoadFlow {
    MainOnly,
    LoadOnly,
}

/// Which flow loads each input operand.
#[derive(Clone, Copy, Debug, PartialEq, Eq, Hash, Structural)]
pub struct LoadFlows {
    pub lhs: InputLoadFlow,
    pub rhs: InputLoadFlow,
}

impl Default for LoadFlows {
    /// Both operands are loaded by the main compute flow: no
    /// specialization.
    fn default() -> (r: Self)
        ensures
            r == (LoadFlows { lhs: InputLoadFlow::MainOnly, rhs: InputLoadFlow::MainOnly }),
    {
        LoadFlows { lhs: InputLoadFlow::MainOnly, rhs: InputLoadFlow::MainOnly }
    }
}

impl LoadFlows {
    /// Whether any operand is loaded by dedicated load-only planes.
    pub fn has_specialization(&self) -> (r: bool)
        ensures
            r == (self.lhs == InputLoadFlow::LoadOnly || self.rhs == InputLoadFlow::LoadOnly),
    {
        matches!(self.lhs, InputLoadFlow::LoadOnly) || matches!(self.rhs, InputLoadFlow::LoadOnly)
    }
}

/// Which input operands one flow of planes is responsible for loading.
#[derive(Clone, Copy, Debug, PartialEq, Eq, Hash, Structural)]
pub enum LoadingSides {
    Both,
    Lhs,
    Rhs,
    Neither,
}

/// The loading responsibilities of the two flows of a specialized
/// pipeline.
#[derive(Clone, Copy, Debug, PartialEq, Eq, Hash, Structural)]
pub struct SpecializedLoadingSides {
    pub main_flow: LoadingSides,
    pub load_only: LoadingSides,
}

/// The loading side one flow owns, given which operands were assigned to
/// it.
pub open spec fn spec_loading_side(lhs: bool, rhs: bool) -> LoadingSides {
    if lhs && rhs {
        LoadingSides::Both
    } else if lhs {
        LoadingSides::Lhs
    } else if rhs {
        LoadingSides::Rhs
    } else {
        LoadingSides::Neither
    }
}

impl SpecializedLoadingSides {
    /// Splits the per-operand flow assignment into the responsibilities
    /// of the main flow and of the load-only flow.
    pub fn from_load_flows(flows: LoadFlows) -> (r: SpecializedLoadingSides)
        ensures
            r.main_flow == spec_loading_side(
                flows.lhs == InputLoadFlow::MainOnly,
                flows.rhs == InputLoadFlow::MainOnly,
            ),
            r.load_only == spec_loading_side(
                flows.lhs == InputLoadFlow::LoadOnly,
                flows.rhs == InputLoadFlow::LoadOnly,
            ),
    {
        let lhs_main = matches!(flows.lhs, InputLoadFlow::MainOnly);
        let rhs_main = matches!(flows.rhs, InputLoadFlow::MainOnly);
        SpecializedLoadingSides {
            main_flow: loading_side(lhs_main, rhs_main),
            load_only: loading_side(!lhs_main, !rhs_main),
        }
    }
}

fn loading_side(lhs: bool, rhs: bool) -> (r: LoadingSides)
    ensures
        r == spec_loading_side(lhs, rhs),
{
    if lhs && rhs {
        LoadingSides::Both
    } else if lhs {
        LoadingSides::Lhs
    } else if rhs {
        LoadingSides::Rhs
    } else {
        LoadingSides::Neither
    }
}

/// Which flow owns the low plane indices of a work-group.
#[derive(Clone, Copy, Debug, PartialEq, Eq, Hash, Structural)]
pub enum PlaneFlowPartitionRule {
    MainFlowFirst,
    LoadOnlyFirst,
}

/// How many planes belong to each flow.
#[derive(Clone, Copy, Debug, PartialEq, Eq, Hash, Structural)]
pub struct MatmulPlaneCounts {
    pub main_flow: u32,
    pub load_only: u32,
}

impl MatmulPlaneCounts {
    /// The two counts together fit in a `u32`.
    pub open spec fn wf(&self) -> bool {
        self.main_flow + self.load_only <= u32::MAX
    }

    /// Planes in the work-group over both flows.
    pub fn total_count(&self) -> (r: u32)
        requires
            self.wf(),
        ensures
            r == self.main_flow + self.load_only,
    {
        self.main_flow + self.load_only
    }
}

/// How the planes of one work-group are partitioned into a main compute
/// flow and an optional load-only flow.
#[derive(Clone, Copy, Debug, PartialEq, Eq, Hash, Structural)]
pub struct PlaneFlowConfig {
    pub counts: MatmulPlaneCounts,
    pub partition_rule: PlaneFlowPartitionRule,
}

impl PlaneFlowConfig {
    pub open spec fn wf(&self) -> bool {
        self.counts.wf()
    }

    /// The config in which all planes compute and none load.
    pub open spec fn spec_unspecialized(num_planes: u32) -> PlaneFlowConfig {
        PlaneFlowConfig {
            counts: MatmulPlaneCounts { main_flow: num_planes, load_only: 0 },
            partition_rule: PlaneFlowPartitionRule::MainFlowFirst,
        }
    }

    /// All planes compute; none are reserved for loading.
    pub fn new_unspecialized(num_planes: u32) -> (r: PlaneFlowConfig)
        ensures
            r == (PlaneFlowConfig {
                counts: MatmulPlaneCounts { main_flow: num_planes, load_only: 0 },
                partition_rule: PlaneFlowPartitionRule::MainFlowFirst,
            }),
            r.wf(),
    {
        PlaneFlowConfig {
            counts: MatmulPlaneCounts { main_flow: num_planes, load_only: 0 },
            partition_rule: PlaneFlowPartitionRule::MainFlowFirst,
        }
    }

    /// Whether some planes are reserved for loading only.
    pub fn has_specialization(&self) -> (r: bool)
        ensures
            r == (self.counts.load_only > 0),
    {
        self.counts.load_only > 0
    }
}

/// Compile-time specialization information handed to the kernel: either
/// the full role split, or the marker that no plane is specialized.
#[derive(Clone, Copy, Debug, PartialEq, Eq, Hash, Structural)]
pub enum SpecializerKind {
    Specialized {
        main_flow_loading_side: LoadingSides,
        load_only_loading_side: LoadingSides,
        role_rule_config: PlaneFlowPartitionRule,
    },
    NotSpecialized,
}

/// Specialization information as consumed by kernel code.
#[derive(Clone, Copy, Debug, PartialEq, Eq, Hash, Structural)]
pub struct Specializer {
    pub kind: SpecializerKind,
}

impl Specializer {
    /// Captures the role split when the plane flow config reserves
    /// load-only planes, and the no-specialization marker otherwise.
    pub fn new(plane_flow_config: PlaneFlowConfig, loading_sides: SpecializedLoadingSides) -> (r:
        Specializer)
        ensures
            plane_flow_config.counts.load_only > 0 ==> r.kind == (SpecializerKind::Specialized {
                main_flow_loading_side: loading_sides.main_flow,
                load_only_loading_side: loading_sides.load_only,
                role_rule_config: plane_flow_config.partition_rule,
            }),
            plane_flow_config.counts.load_only == 0 ==> r.kind == SpecializerKind::NotSpecialized,
    {
        if plane_flow_config.has_specialization() {
            Specializer {
                kind: SpecializerKind::Specialized {
                    main_flow_loading_side: loading_sides.main_flow,
                    load_only_loading_side: loading_sides.load_only,
                    role_rule_config: plane_flow_config.partition_rule,
                },
            }
        } else {
            Specializer { kind: SpecializerKind::NotSpecialized }
        }
    }
}

} // verus!
