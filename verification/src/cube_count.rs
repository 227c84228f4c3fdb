use vstd::prelude::*;

use vstd::arithmetic::div_mod::{
    lemma_div_is_ordered, lemma_div_pos_is_pos, lemma_fundamental_div_mod,
    lemma_fundamental_div_mod_converse, lemma_mod_division_less_than_divisor,
};

use crate::error::{MatmulAvailabilityError, MatmulSetupError};
use crate::global_order::{GlobalOrder, div_ceil_u32, spec_div_ceil, spec_order_map};
use crate::problem::MatmulProblem;
use crate::tiling::TilingScheme;

verus! {

/// How many work-groups to schedule on each streaming multiprocessor.
#[derive(Clone, Copy, Debug, PartialEq, Eq, Hash, Structural)]
pub enum SmAllocation {
    /// Exactly as many as needed to cover the work: ceil(total / SMs).
    Exact,
    /// An explicit occupancy target, raised to the exact count whenever
    /// the target alone would under-cover the work.
    Fixed { cubes_per_sm: u32 },
}

impl Default for SmAllocation {
    fn default() -> (r: Self)
        ensures
            r == SmAllocation::Exact,
    {
        SmAllocation::Exact
    }
}

/// Front-facing choice of how many work-groups to launch and in what 3D
/// shape, made before the problem is known.
#[derive(Clone, Copy, Debug, PartialEq, Eq, Hash, Structural)]
pub enum CubeCountStrategy {
    /// X: blocks along m, Y: blocks along n, Z: batches.
    FromProblem,
    /// If not `cubes_first`: X: number of SMs, Y: work-groups per SM.
    /// If `cubes_first`: X: work-groups per SM, Y: number of SMs.
    /// Unavailable when the device reports no SM count; resolution then
    /// falls back to `FromProblem`.
    Sm { cubes_first: bool, num_sms: u32, sm_usage: SmAllocation },
    /// X: all work-groups flattened onto one axis.
    Flattened,
    /// Factor the total over the three axes to stay under the per-axis
    /// device maxima.
    Spread,
}

impl Default for CubeCountStrategy {
    fn default() -> (r: Self)
        ensures
            r == CubeCountStrategy::FromProblem,
    {
        CubeCountStrategy::FromProblem
    }
}

/// A fully resolved launch-grid plan: the strategy with all values
/// known.
#[derive(Clone, Copy, Debug, PartialEq, Eq, Hash, Structural)]
pub enum CubeCountPlan {
    FromProblem { m_cubes: u32, n_cubes: u32, batch_cubes: u32 },
    Sm { num_sms: u32, cubes_per_sm: u32, cubes_first: bool },
    Flattened { size: u32 },
    Spread { x: u32, y: u32, z: u32 },
}

impl CubeCountPlan {
    /// The 3D grid shape this plan launches.
    pub open spec fn spec_shape(self) -> (int, int, int) {
        match self {
            CubeCountPlan::FromProblem { m_cubes, n_cubes, batch_cubes } => (
                m_cubes as int,
                n_cubes as int,
                batch_cubes as int,
            ),
            CubeCountPlan::Sm { num_sms, cubes_per_sm, cubes_first } => if cubes_first {
                (cubes_per_sm as int, num_sms as int, 1)
            } else {
                (num_sms as int, cubes_per_sm as int, 1)
            },
            CubeCountPlan::Flattened { size } => (size as int, 1, 1),
            CubeCountPlan::Spread { x, y, z } => (x as int, y as int, z as int),
        }
    }

    /// The grid shape to launch, as (x, y, z).
    pub fn cube_count(&self) -> (r: (u32, u32, u32))
        ensures
            (r.0 as int, r.1 as int, r.2 as int) == self.spec_shape(),
    {
        match self {
            CubeCountPlan::FromProblem { m_cubes, n_cubes, batch_cubes } => (
                *m_cubes,
                *n_cubes,
                *batch_cubes,
            ),
            CubeCountPlan::Sm { num_sms, cubes_per_sm, cubes_first } => {
                if *cubes_first {
                    (*cubes_per_sm, *num_sms, 1)
                } else {
                    (*num_sms, *cubes_per_sm, 1)
                }
            },
            CubeCountPlan::Flattened { size } => (*size, 1, 1),
            CubeCountPlan::Spread { x, y, z } => (*x, *y, *z),
        }
    }

    /// The linear work-group index of grid position (x, y, z) under
    /// this plan's shape: x runs fastest, then y, then z.
    pub open spec fn spec_linear_index(self, x: int, y: int, z: int) -> int {
        let (sx, sy, _sz) = self.spec_shape();
        x + sx * (y + sy * z)
    }

    /// The block of work the work-group at grid position (x, y, z)
    /// owns, or nothing: a plan that over-covers the work leaves the
    /// trailing positions without a block, and their work-groups return
    /// at once. The batch runs slowest; within a batch the global order
    /// names the (m-block, n-block) pair.
    pub fn cube_pos_to_block(
        &self,
        x: u32,
        y: u32,
        z: u32,
        order: GlobalOrder,
        m_cubes: u32,
        n_cubes: u32,
        batch_cubes: u32,
    ) -> (r: Option<(u32, u32, u32)>)
        requires
            0 < m_cubes,
            0 < n_cubes,
            0 < batch_cubes,
            m_cubes * n_cubes * batch_cubes <= u32::MAX,
            order.wf_for(m_cubes as int),
            ({
                let (sx, sy, sz) = self.spec_shape();
                x < sx && y < sy && z < sz
            }),
        ensures
            ({
                let lin = self.spec_linear_index(x as int, y as int, z as int);
                let per_batch = m_cubes * n_cubes;
                let total = m_cubes * n_cubes * batch_cubes;
                match r {
                    Some((mb, nb, b)) => {
                        &&& lin < total
                        &&& b == lin / per_batch
                        &&& b < batch_cubes
                        &&& (mb as int, nb as int) == spec_order_map(
                            order,
                            lin % per_batch,
                            n_cubes as int,
                        )
                        &&& mb < m_cubes
                        &&& nb < n_cubes
                    },
                    None => lin >= total,
                }
            }),
    {
        let (sx, sy, _sz) = self.cube_count();
        proof {
            assert((sy as int) * (z as int) <= 0xFFFF_FFFF_FFFF_FFFF) by (nonlinear_arith)
                requires
                    sy <= u32::MAX,
                    z <= u32::MAX,
                ;
            assert((sx as int) * ((y as int) + (sy as int) * (z as int))
                < 0x1_0000_0000_0000_0000_0000_0000_0000) by (nonlinear_arith)
                requires
                    sx <= u32::MAX,
                    sy <= u32::MAX,
                    y <= u32::MAX,
                    z <= u32::MAX,
                ;
        }
        let lin128: u128 = (x as u128) + (sx as u128) * ((y as u128) + (sy as u128) * (
        z as u128));
        proof {
            assert((m_cubes as int) * (n_cubes as int) <= 0xFFFF_FFFF_FFFF_FFFF)
                by (nonlinear_arith)
                requires
                    m_cubes <= u32::MAX,
                    n_cubes <= u32::MAX,
                ;
        }
        let per_batch64: u64 = (m_cubes as u64) * (n_cubes as u64);
        proof {
            assert((m_cubes as int) * (n_cubes as int) <= (m_cubes as int) * (n_cubes as int) * (
            batch_cubes as int) && 0 < (m_cubes as int) * (n_cubes as int)) by (nonlinear_arith)
                requires
                    0 < m_cubes,
                    0 < n_cubes,
                    1 <= batch_cubes,
                ;
        }
        let total64: u64 = per_batch64 * (batch_cubes as u64);
        proof {
            assert((m_cubes as int) * (n_cubes as int) * (batch_cubes as int) == ((m_cubes
                as int) * (n_cubes as int)) * (batch_cubes as int)) by (nonlinear_arith);
        }
        if lin128 >= total64 as u128 {
            return None;
        }
        let lin: u32 = lin128 as u32;
        let per_batch: u32 = per_batch64 as u32;
        proof {
            lemma_pos_in_batch_grid(
                lin as int,
                batch_cubes as int,
                per_batch as int,
            );
        }
        let b: u32 = lin / per_batch;
        let rem: u32 = lin % per_batch;
        proof {
            assert(rem < m_cubes * n_cubes);
        }
        let (mb, nb) = order.map_index(rem, m_cubes, n_cubes);
        Some((mb, nb, b))
    }
}

/// A linear index below the whole grid splits into a batch below the
/// batch count and a remainder below the per-batch block count.
proof fn lemma_pos_in_batch_grid(lin: int, batch_cubes: int, per_batch: int)
    requires
        0 < batch_cubes,
        0 < per_batch,
        0 <= lin < per_batch * batch_cubes,
    ensures
        0 <= lin / per_batch < batch_cubes,
        0 <= lin % per_batch < per_batch,
{
    lemma_div_pos_is_pos(lin, per_batch);
    lemma_mod_division_less_than_divisor(lin, per_batch);
    assert((batch_cubes - 1) * per_batch + (per_batch - 1) == per_batch * batch_cubes - 1)
        by (nonlinear_arith);
    lemma_fundamental_div_mod_converse(
        per_batch * batch_cubes - 1,
        per_batch,
        batch_cubes - 1,
        per_batch - 1,
    );
    lemma_div_is_ordered(lin, per_batch * batch_cubes - 1, per_batch);
}

/// Number of m-blocks the problem needs under the scheme.
pub open spec fn spec_m_cubes(problem: MatmulProblem, ts: TilingScheme) -> int {
    spec_div_ceil(problem.m as int, ts.spec_elements_per_stage_m())
}

/// Number of n-blocks the problem needs under the scheme.
pub open spec fn spec_n_cubes(problem: MatmulProblem, ts: TilingScheme) -> int {
    spec_div_ceil(problem.n as int, ts.spec_elements_per_stage_n())
}

/// The grid-too-big error for the given device maxima.
pub open spec fn spec_count_too_big(mx: int, my: int, mz: int) -> MatmulSetupError {
    MatmulSetupError::Unavailable(
        MatmulAvailabilityError::CubeCountTooBig {
            max_x: mx as u32,
            max_y: my as u32,
            max_z: mz as u32,
        },
    )
}

/// Resolution of the `FromProblem` strategy: one work-group per block,
/// shaped (m-blocks, n-blocks, batches).
pub open spec fn spec_resolve_from_problem(
    mc: int,
    nc: int,
    bc: int,
    mx: int,
    my: int,
    mz: int,
) -> Result<CubeCountPlan, MatmulSetupError> {
    if mc <= mx && nc <= my && bc <= mz {
        Ok(
            CubeCountPlan::FromProblem {
                m_cubes: mc as u32,
                n_cubes: nc as u32,
                batch_cubes: bc as u32,
            },
        )
    } else {
        Err(spec_count_too_big(mx, my, mz))
    }
}

/// Work-groups per SM under the given allocation: at least the exact
/// covering count, never fewer.
pub open spec fn spec_cubes_per_sm(total: int, num_sms: int, usage: SmAllocation) -> int {
    let exact = spec_div_ceil(total, num_sms);
    match usage {
        SmAllocation::Exact => exact,
        SmAllocation::Fixed { cubes_per_sm } => if cubes_per_sm > exact {
            cubes_per_sm as int
        } else {
            exact
        },
    }
}

/// Resolution of the `Spread` strategy: fill x up to its maximum, then
/// y, then put the remaining factor on z.
pub open spec fn spec_resolve_spread(total: int, mx: int, my: int, mz: int) -> Result<
    CubeCountPlan,
    MatmulSetupError,
> {
    let x = if total <= mx {
        total
    } else {
        mx
    };
    let y0 = spec_div_ceil(total, x);
    let y = if y0 <= my {
        y0
    } else {
        my
    };
    let z = spec_div_ceil(total, x * y);
    if z <= mz {
        Ok(CubeCountPlan::Spread { x: x as u32, y: y as u32, z: z as u32 })
    } else {
        Err(spec_count_too_big(mx, my, mz))
    }
}

/// Resolution of a cube-count strategy against the block counts
/// (mc, nc, bc) and the device per-axis grid maxima (mx, my, mz). A
/// shape that would exceed a maximum is an availability error, never
/// silently clamped; an `Sm` strategy without a reported SM count falls
/// back to `FromProblem`.
pub open spec fn spec_resolve_cube_count(
    strategy: CubeCountStrategy,
    mc: int,
    nc: int,
    bc: int,
    mx: int,
    my: int,
    mz: int,
) -> Result<CubeCountPlan, MatmulSetupError> {
    match strategy {
        CubeCountStrategy::FromProblem => spec_resolve_from_problem(mc, nc, bc, mx, my, mz),
        CubeCountStrategy::Sm { cubes_first, num_sms, sm_usage } => {
            if num_sms == 0 {
                spec_resolve_from_problem(mc, nc, bc, mx, my, mz)
            } else {
                let total = mc * nc * bc;
                let cps = spec_cubes_per_sm(total, num_sms as int, sm_usage);
                let sx = if cubes_first {
                    cps
                } else {
                    num_sms as int
                };
                let sy = if cubes_first {
                    num_sms as int
                } else {
                    cps
                };
                if sx <= mx && sy <= my {
                    Ok(CubeCountPlan::Sm { num_sms, cubes_per_sm: cps as u32, cubes_first })
                } else {
                    Err(spec_count_too_big(mx, my, mz))
                }
            }
        },
        CubeCountStrategy::Flattened => {
            let total = mc * nc * bc;
            if total <= mx {
                Ok(CubeCountPlan::Flattened { size: total as u32 })
            } else {
                Err(spec_count_too_big(mx, my, mz))
            }
        },
        CubeCountStrategy::Spread => {
            let total = mc * nc * bc;
            if total <= u32::MAX {
                spec_resolve_spread(total, mx, my, mz)
            } else {
                Err(spec_count_too_big(mx, my, mz))
            }
        },
    }
}

/// Covering a count with blocks of a positive size never under-covers:
/// d * ceil(t / d) >= t.
pub proof fn lemma_div_ceil_mul_ge(t: int, d: int)
    requires
        0 <= t,
        0 < d,
    ensures
        d * spec_div_ceil(t, d) >= t,
        spec_div_ceil(t, d) * d >= t,
{
    lemma_fundamental_div_mod(t + d - 1, d);
    lemma_mod_division_less_than_divisor(t + d - 1, d);
    let q = (t + d - 1) / d;
    let r = (t + d - 1) % d;
    assert(d * q == t + d - 1 - r);
    assert(d * q >= t);
    assert(q * d == d * q) by (nonlinear_arith);
}

/// ceil(t / d) is positive whenever t is.
pub proof fn lemma_div_ceil_pos(t: int, d: int)
    requires
        0 < t,
        0 < d,
    ensures
        1 <= spec_div_ceil(t, d),
        0 < spec_div_ceil(t, d),
{
    lemma_fundamental_div_mod(t + d - 1, d);
    lemma_mod_division_less_than_divisor(t + d - 1, d);
    let q = (t + d - 1) / d;
    let r = (t + d - 1) % d;
    if q <= 0 {
        assert(d * q <= 0) by (nonlinear_arith)
            requires
                q <= 0,
                0 < d,
            ;
        assert(t + d - 1 == d * q + r);
        assert(t + d - 1 <= r);
        assert(false);
    }
}

/// Every resolved grid plan covers the work: the product of its shape is
/// at least the total number of work-groups the problem needs,
/// mc x nc x bc. In particular `FromProblem` and every `Sm` shape cover
/// the same total work, with `Sm` never under-covering.
pub proof fn law_cube_count_covers(
    strategy: CubeCountStrategy,
    mc: int,
    nc: int,
    bc: int,
    mx: int,
    my: int,
    mz: int,
)
    requires
        0 < mc,
        0 < nc,
        0 < bc,
        0 < mx,
        0 < my,
        0 < mz,
        mx <= u32::MAX,
        my <= u32::MAX,
        mz <= u32::MAX,
        spec_resolve_cube_count(strategy, mc, nc, bc, mx, my, mz) is Ok,
    ensures
        ({
            let plan = spec_resolve_cube_count(strategy, mc, nc, bc, mx, my, mz)->Ok_0;
            let (sx, sy, sz) = plan.spec_shape();
            sx * sy * sz >= mc * nc * bc
        }),
{
    let total = mc * nc * bc;
    assert(0 < total) by (nonlinear_arith)
        requires
            0 < mc,
            0 < nc,
            0 < bc,
            total == mc * nc * bc,
        ;
    let plan = spec_resolve_cube_count(strategy, mc, nc, bc, mx, my, mz)->Ok_0;
    match strategy {
        CubeCountStrategy::FromProblem => {
            lemma_from_problem_covers(mc, nc, bc, mx, my, mz);
        },
        CubeCountStrategy::Sm { cubes_first, num_sms, sm_usage } => {
            if num_sms == 0 {
                lemma_from_problem_covers(mc, nc, bc, mx, my, mz);
            } else {
                let cps = spec_cubes_per_sm(total, num_sms as int, sm_usage);
                lemma_div_ceil_mul_ge(total, num_sms as int);
                assert(cps >= spec_div_ceil(total, num_sms as int));
                assert(num_sms * cps >= total) by (nonlinear_arith)
                    requires
                        cps >= spec_div_ceil(total, num_sms as int),
                        num_sms as int * spec_div_ceil(total, num_sms as int) >= total,
                        0 < num_sms,
                    ;
                // The resolved plan stores cps untruncated: it is below
                // one of the axis maxima, which fit in a u32.
                assert(cps <= u32::MAX);
                let (sx, sy, sz) = plan.spec_shape();
                assert((sx == cps && sy == num_sms) || (sx == num_sms && sy == cps));
                assert(sx * sy >= total) by (nonlinear_arith)
                    requires
                        (sx == cps && sy == num_sms as int) || (sx == num_sms as int && sy
                            == cps),
                        num_sms as int * cps >= total,
                    ;
                assert(sx * sy * sz >= total) by (nonlinear_arith)
                    requires
                        sz == 1,
                        sx * sy >= total,
                    ;
            }
        },
        CubeCountStrategy::Flattened => {
            let (sx, sy, sz) = plan.spec_shape();
            assert(total <= mx);
            assert(sx == total && sy == 1 && sz == 1);
            assert(sx * sy * sz == total) by (nonlinear_arith)
                requires
                    sx == total,
                    sy == 1,
                    sz == 1,
            ;
        },
        CubeCountStrategy::Spread => {
            let x = if total <= mx {
                total
            } else {
                mx
            };
            let y0 = spec_div_ceil(total, x);
            let y = if y0 <= my {
                y0
            } else {
                my
            };
            let z = spec_div_ceil(total, x * y);
            assert(0 < x);
            lemma_div_ceil_pos(total, x);
            assert(0 < y);
            assert(0 < x * y) by (nonlinear_arith)
                requires
                    0 < x,
                    0 < y,
                ;
            lemma_div_ceil_mul_ge(total, x * y);
            let (sx, sy, sz) = plan.spec_shape();
            assert(sx == x && sy == y && sz == z);
            assert(x * y * z >= total) by (nonlinear_arith)
                requires
                    (x * y) * z >= total,
                ;
        },
    }
}

/// The `FromProblem` shape is exactly the block grid.
proof fn lemma_from_problem_covers(mc: int, nc: int, bc: int, mx: int, my: int, mz: int)
    requires
        0 <= mc <= u32::MAX,
        0 <= nc <= u32::MAX,
        0 <= bc <= u32::MAX,
        spec_resolve_from_problem(mc, nc, bc, mx, my, mz) is Ok,
    ensures
        ({
            let plan = spec_resolve_from_problem(mc, nc, bc, mx, my, mz)->Ok_0;
            let (sx, sy, sz) = plan.spec_shape();
            sx * sy * sz == mc * nc * bc
        }),
{
}

/// Resolves the grid-count strategy of `hypercube` against the problem
/// and the device per-axis grid maxima, producing the launch-grid plan
/// or the availability error for a grid no shape can fit.
pub fn cube_count_plan_from_blueprint(
    strategy: CubeCountStrategy,
    tiling_scheme: &TilingScheme,
    problem: &MatmulProblem,
    max_cube_count: &(u32, u32, u32),
) -> (r: Result<CubeCountPlan, MatmulSetupError>)
    requires
        tiling_scheme.wf(),
        0 < problem.m,
        0 < problem.n,
        0 < problem.batch,
        0 < max_cube_count.0,
        0 < max_cube_count.1,
        0 < max_cube_count.2,
    ensures
        r == spec_resolve_cube_count(
            strategy,
            spec_m_cubes(*problem, *tiling_scheme),
            spec_n_cubes(*problem, *tiling_scheme),
            problem.batch as int,
            max_cube_count.0 as int,
            max_cube_count.1 as int,
            max_cube_count.2 as int,
        ),
{
    let mc = div_ceil_u32(problem.m, tiling_scheme.elements_per_stage_along_m());
    let nc = div_ceil_u32(problem.n, tiling_scheme.elements_per_stage_along_n());
    let bc = problem.batch;
    let mx = max_cube_count.0;
    let my = max_cube_count.1;
    let mz = max_cube_count.2;
    proof {
        lemma_div_ceil_pos(problem.m as int, tiling_scheme.spec_elements_per_stage_m());
        lemma_div_ceil_pos(problem.n as int, tiling_scheme.spec_elements_per_stage_n());
    }
    match strategy {
        CubeCountStrategy::FromProblem => resolve_from_problem(mc, nc, bc, mx, my, mz),
        CubeCountStrategy::Sm { cubes_first, num_sms, sm_usage } => {
            if num_sms == 0 {
                resolve_from_problem(mc, nc, bc, mx, my, mz)
            } else {
                let total: u128 = total_cubes(mc, nc, bc);
                let exact: u128 = (total + num_sms as u128 - 1) / (num_sms as u128);
                let cps: u128 = match sm_usage {
                    SmAllocation::Exact => exact,
                    SmAllocation::Fixed { cubes_per_sm } => {
                        if cubes_per_sm as u128 > exact {
                            cubes_per_sm as u128
                        } else {
                            exact
                        }
                    },
                };
                let sx: u128 = if cubes_first {
                    cps
                } else {
                    num_sms as u128
                };
                let sy: u128 = if cubes_first {
                    num_sms as u128
                } else {
                    cps
                };
                if sx <= mx as u128 && sy <= my as u128 {
                    Ok(CubeCountPlan::Sm { num_sms, cubes_per_sm: cps as u32, cubes_first })
                } else {
                    Err(count_too_big(mx, my, mz))
                }
            }
        },
        CubeCountStrategy::Flattened => {
            let total: u128 = total_cubes(mc, nc, bc);
            if total <= mx as u128 {
                Ok(CubeCountPlan::Flattened { size: total as u32 })
            } else {
                Err(count_too_big(mx, my, mz))
            }
        },
        CubeCountStrategy::Spread => {
            let total: u128 = total_cubes(mc, nc, bc);
            if total > u32::MAX as u128 {
                Err(count_too_big(mx, my, mz))
            } else {
                let total32 = total as u32;
                proof {
                    lemma_total_cubes_pos(mc as int, nc as int, bc as int);
                }
                let x: u32 = if total32 <= mx {
                    total32
                } else {
                    mx
                };
                let y0: u32 = div_ceil_u32(total32, x);
                let y: u32 = if y0 <= my {
                    y0
                } else {
                    my
                };
                proof {
                    lemma_div_ceil_pos(total32 as int, x as int);
                    assert(0 < (x as int) * (y as int) <= 0xFFFF_FFFF_FFFF_FFFF)
                        by (nonlinear_arith)
                        requires
                            0 < x <= u32::MAX,
                            0 < y <= u32::MAX,
                        ;
                }
                let xy: u64 = (x as u64) * (y as u64);
                let z: u32 = if xy as u128 >= total {
                    proof {
                        lemma_ceil_of_covered(total32 as int, (x as int) * (y as int));
                    }
                    1
                } else {
                    div_ceil_u32(total32, xy as u32)
                };
                if z <= mz {
                    Ok(CubeCountPlan::Spread { x, y, z })
                } else {
                    Err(count_too_big(mx, my, mz))
                }
            }
        },
    }
}

/// When the divisor already covers the total, the ceiling quotient is 1.
proof fn lemma_ceil_of_covered(t: int, d: int)
    requires
        0 < t <= d,
    ensures
        spec_div_ceil(t, d) == 1,
{
    lemma_fundamental_div_mod_converse(t + d - 1, d, 1, t - 1);
}

/// mc * nc * bc is positive when all three are.
proof fn lemma_total_cubes_pos(mc: int, nc: int, bc: int)
    requires
        0 < mc,
        0 < nc,
        0 < bc,
    ensures
        0 < mc * nc * bc,
{
    assert(0 < mc * nc * bc) by (nonlinear_arith)
        requires
            0 < mc,
            0 < nc,
            0 < bc,
        ;
}

fn resolve_from_problem(mc: u32, nc: u32, bc: u32, mx: u32, my: u32, mz: u32) -> (r: Result<
    CubeCountPlan,
    MatmulSetupError,
>)
    ensures
        r == spec_resolve_from_problem(
            mc as int,
            nc as int,
            bc as int,
            mx as int,
            my as int,
            mz as int,
        ),
{
    if mc <= mx && nc <= my && bc <= mz {
        Ok(CubeCountPlan::FromProblem { m_cubes: mc, n_cubes: nc, batch_cubes: bc })
    } else {
        Err(count_too_big(mx, my, mz))
    }
}

fn count_too_big(mx: u32, my: u32, mz: u32) -> (r: MatmulSetupError)
    ensures
        r == spec_count_too_big(mx as int, my as int, mz as int),
{
    MatmulSetupError::Unavailable(
        MatmulAvailabilityError::CubeCountTooBig { max_x: mx, max_y: my, max_z: mz },
    )
}

/// The product mc * nc * bc, computed without overflow.
fn total_cubes(mc: u32, nc: u32, bc: u32) -> (r: u128)
    ensures
        r == mc as int * nc as int * bc as int,
        r < 0x1_0000_0000_0000_0000_0000_0000,
{
    proof {
        assert((mc as int) * (nc as int) <= 0xFFFF_FFFF_FFFF_FFFF) by (nonlinear_arith)
            requires
                mc <= u32::MAX,
                nc <= u32::MAX,
            ;
        assert((mc as int) * (nc as int) * (bc as int) < 0x1_0000_0000_0000_0000_0000_0000)
            by (nonlinear_arith)
            requires
                mc <= u32::MAX,
                nc <= u32::MAX,
                bc <= u32::MAX,
            ;
    }
    (mc as u128) * (nc as u128) * (bc as u128)
}

} // verus!
