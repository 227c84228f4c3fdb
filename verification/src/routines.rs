use vstd::prelude::*;

pub mod selector;
pub mod simple_unit;
pub mod vecmat;

use crate::blueprint::TilingBlueprint;
use crate::cube_count::{
    CubeCountPlan, cube_count_plan_from_blueprint, spec_m_cubes, spec_n_cubes,
    spec_resolve_cube_count,
};
use crate::dtypes::MatmulElems;
use crate::error::MatmulSetupError;
use crate::problem::{MatmulLineSizes, MatmulProblem};
use crate::resource::CubeDimResource;

verus! {

/// Immutable snapshot of the device limits the planner consults. All
/// hardware queries happen once, before planning begins; the planner
/// never re-queries mid-computation.
#[derive(Clone, Copy, Debug)]
pub struct DeviceSettings {
    /// Number of units in one plane (SIMD lane-group width).
    pub plane_dim: u32,
    /// Vectorized load/store width per operand.
    pub line_sizes: MatmulLineSizes,
    /// Maximum launch-grid size along each axis.
    pub max_cube_count: (u32, u32, u32),
    /// Maximum number of units in one work-group.
    pub max_units_per_cube: u32,
    /// Opaque per-axis budget for the elements one work-group stages,
    /// derived from the device's fast-scratch memory size.
    pub max_elements_per_stage: u32,
    /// Number of streaming multiprocessors, if the device reports one.
    pub num_streaming_multiprocessors: Option<u32>,
    /// Whether the device natively supports the 19-bit tensor-core
    /// float.
    pub supports_tf32: bool,
    /// Whether the device natively supports 16-bit floats.
    pub supports_f16: bool,
}

impl DeviceSettings {
    /// The device limits a planner run relies on are positive.
    pub open spec fn wf(&self) -> bool {
        &&& 0 < self.plane_dim
        &&& 0 < self.max_cube_count.0
        &&& 0 < self.max_cube_count.1
        &&& 0 < self.max_cube_count.2
        &&& 0 < self.max_units_per_cube
        &&& 0 < self.max_elements_per_stage
    }

    /// Builds the snapshot from raw device properties. A device that
    /// reports no minimum plane width gets the common default of 32.
    pub fn new(
        plane_size_min: u32,
        line_sizes: MatmulLineSizes,
        max_cube_count: (u32, u32, u32),
        max_units_per_cube: u32,
        max_elements_per_stage: u32,
        num_streaming_multiprocessors: Option<u32>,
        supports_tf32: bool,
        supports_f16: bool,
    ) -> (r: DeviceSettings)
        requires
            0 < max_cube_count.0,
            0 < max_cube_count.1,
            0 < max_cube_count.2,
            0 < max_units_per_cube,
            0 < max_elements_per_stage,
        ensures
            r.plane_dim == (if plane_size_min == 0 {
                32u32
            } else {
                plane_size_min
            }),
            r.line_sizes == line_sizes,
            r.max_cube_count == max_cube_count,
            r.max_units_per_cube == max_units_per_cube,
            r.max_elements_per_stage == max_elements_per_stage,
            r.num_streaming_multiprocessors == num_streaming_multiprocessors,
            r.supports_tf32 == supports_tf32,
            r.supports_f16 == supports_f16,
            r.wf(),
    {
        let plane_dim = if plane_size_min == 0 {
            32
        } else {
            plane_size_min
        };
        DeviceSettings {
            plane_dim,
            line_sizes,
            max_cube_count,
            max_units_per_cube,
            max_elements_per_stage,
            num_streaming_multiprocessors,
            supports_tf32,
            supports_f16,
        }
    }
}

/// Everything needed to launch one resolved kernel: the blueprint, the
/// element types, the work-group shape and the launch-grid plan.
pub struct LaunchInfo {
    pub blueprint: TilingBlueprint,
    pub dtypes: MatmulElems,
    pub cube_dim: cubecl::CubeDim,
    pub cube_count_plan: CubeCountPlan,
}

impl LaunchInfo {
    /// Resolves the launch shape of a validated blueprint: the resource
    /// request becomes the work-group shape, and the grid-count
    /// strategy becomes the launch-grid plan.
    pub fn new(
        blueprint: TilingBlueprint,
        dtypes: MatmulElems,
        problem: &MatmulProblem,
        cubedim_resource: CubeDimResource,
        device_settings: &DeviceSettings,
    ) -> (r: Result<LaunchInfo, MatmulSetupError>)
        requires
            device_settings.wf(),
            cubedim_resource.wf(),
            blueprint.tiling_scheme.wf(),
            0 < problem.m,
            0 < problem.n,
            0 < problem.batch,
        ensures
            ({
                let planes = cubedim_resource.spec_num_planes(device_settings.plane_dim);
                let plan = spec_resolve_cube_count(
                    blueprint.hypercube_blueprint.cube_count_strategy,
                    spec_m_cubes(*problem, blueprint.tiling_scheme),
                    spec_n_cubes(*problem, blueprint.tiling_scheme),
                    problem.batch as int,
                    device_settings.max_cube_count.0 as int,
                    device_settings.max_cube_count.1 as int,
                    device_settings.max_cube_count.2 as int,
                );
                match r {
                    Ok(info) => {
                        &&& planes is Ok
                        &&& plan is Ok
                        &&& info.blueprint == blueprint
                        &&& info.dtypes == dtypes
                        &&& info.cube_dim.x == device_settings.plane_dim
                        &&& info.cube_dim.y == planes->Ok_0
                        &&& info.cube_dim.z == 1
                        &&& info.cube_count_plan == plan->Ok_0
                    },
                    Err(e) => (planes matches Err(pe) && e == MatmulSetupError::InvalidConfig(pe))
                        || (planes is Ok && (plan matches Err(ce) && e == ce)),
                }
            }),
    {
        let cube_dim = match cubedim_resource.to_cube_dim(device_settings.plane_dim) {
            Ok(d) => d,
            Err(e) => {
                return Err(MatmulSetupError::InvalidConfig(e));
            },
        };
        let cube_count_plan = match cube_count_plan_from_blueprint(
            blueprint.hypercube_blueprint.cube_count_strategy,
            &blueprint.tiling_scheme,
            problem,
            &device_settings.max_cube_count,
        ) {
            Ok(p) => p,
            Err(e) => {
                return Err(e);
            },
        };
        Ok(LaunchInfo { blueprint, dtypes, cube_dim, cube_count_plan })
    }
}

impl TilingBlueprint {
    /// The work-group shape and launch-grid plan this blueprint
    /// launches with on the given device.
    pub fn cube_launch_info(
        &self,
        cubedim_resource: CubeDimResource,
        problem: &MatmulProblem,
        device_settings: &DeviceSettings,
    ) -> (r: Result<(cubecl::CubeDim, CubeCountPlan), MatmulSetupError>)
        requires
            device_settings.wf(),
            cubedim_resource.wf(),
            self.tiling_scheme.wf(),
            0 < problem.m,
            0 < problem.n,
            0 < problem.batch,
        ensures
            ({
                let planes = cubedim_resource.spec_num_planes(device_settings.plane_dim);
                let plan = spec_resolve_cube_count(
                    self.hypercube_blueprint.cube_count_strategy,
                    spec_m_cubes(*problem, self.tiling_scheme),
                    spec_n_cubes(*problem, self.tiling_scheme),
                    problem.batch as int,
                    device_settings.max_cube_count.0 as int,
                    device_settings.max_cube_count.1 as int,
                    device_settings.max_cube_count.2 as int,
                );
                match r {
                    Ok((dim, p)) => {
                        &&& planes is Ok
                        &&& plan is Ok
                        &&& dim.x == device_settings.plane_dim
                        &&& dim.y == planes->Ok_0
                        &&& dim.z == 1
                        &&& p == plan->Ok_0
                    },
                    Err(e) => (planes matches Err(pe) && e == MatmulSetupError::InvalidConfig(pe))
                        || (planes is Ok && (plan matches Err(ce) && e == ce)),
                }
            }),
    {
        let cube_dim = match cubedim_resource.to_cube_dim(device_settings.plane_dim) {
            Ok(d) => d,
            Err(e) => {
                return Err(MatmulSetupError::InvalidConfig(e));
            },
        };
        let cube_count_plan = match cube_count_plan_from_blueprint(
            self.hypercube_blueprint.cube_count_strategy,
            &self.tiling_scheme,
            problem,
            &device_settings.max_cube_count,
        ) {
            Ok(p) => p,
            Err(e) => {
                return Err(e);
            },
        };
        Ok((cube_dim, cube_count_plan))
    }
}

/// How an algorithm family obtains its blueprint: use exactly the given
/// one (still validated), or infer one from partial hints.
#[derive(Clone, Copy, Debug)]
pub enum BlueprintStrategy<S> {
    Forced(TilingBlueprint),
    Inferred(S),
}

} // verus!
