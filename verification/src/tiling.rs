use vstd::prelude::*;

use crate::error::{InvalidConfigError, MatmulSetupError};

verus! {

/// Per-axis size of the smallest block one native matrix-multiply
/// primitive consumes.
#[derive(Clone, Copy, Debug, PartialEq, Eq, Hash, Structural)]
pub struct TileSize {
    pub m: u32,
    pub n: u32,
    pub k: u32,
}

/// How many tiles one plane (lane-group) handles along each axis.
#[derive(Clone, Copy, Debug, PartialEq, Eq, Hash, Structural)]
pub struct PartitionSize {
    pub m: u32,
    pub n: u32,
    pub k: u32,
}

/// How many partitions are staged together and shared by all planes of
/// one work-group along each axis.
#[derive(Clone, Copy, Debug, PartialEq, Eq, Hash, Structural)]
pub struct StageSize {
    pub m: u32,
    pub n: u32,
    pub k: u32,
}

impl TileSize {
    pub fn new(m: u32, n: u32, k: u32) -> (r: TileSize)
        ensures
            r == (TileSize { m, n, k }),
    {
        TileSize { m, n, k }
    }
}

impl PartitionSize {
    pub fn new(m: u32, n: u32, k: u32) -> (r: PartitionSize)
        ensures
            r == (PartitionSize { m, n, k }),
    {
        PartitionSize { m, n, k }
    }
}

impl StageSize {
    pub fn new(m: u32, n: u32, k: u32) -> (r: StageSize)
        ensures
            r == (StageSize { m, n, k }),
    {
        StageSize { m, n, k }
    }
}

/// The three nested per-axis size vectors describing how a problem is
/// hierarchically decomposed: tiles, partitions of tiles, and stages of
/// partitions. The product tile x partition x stage along an axis is the
/// number of problem elements one work-group consumes along that axis.
#[derive(Clone, Copy, Debug, PartialEq, Eq, Hash, Structural)]
pub struct TilingScheme {
    pub tile_size: TileSize,
    pub partition_size: PartitionSize,
    pub stage_size: StageSize,
}

impl TilingScheme {
    /// Every size component is positive and the per-axis element products
    /// fit in a `u32`; established by the builder and assumed by the
    /// derived-quantity accessors.
    pub open spec fn wf(&self) -> bool {
        &&& 0 < self.tile_size.m
        &&& 0 < self.tile_size.n
        &&& 0 < self.tile_size.k
        &&& 0 < self.partition_size.m
        &&& 0 < self.partition_size.n
        &&& 0 < self.partition_size.k
        &&& 0 < self.stage_size.m
        &&& 0 < self.stage_size.n
        &&& 0 < self.stage_size.k
        &&& self.tile_size.m * self.partition_size.m * self.stage_size.m <= u32::MAX
        &&& self.tile_size.n * self.partition_size.n * self.stage_size.n <= u32::MAX
        &&& self.tile_size.k * self.partition_size.k * self.stage_size.k <= u32::MAX
    }

    /// Problem elements one work-group consumes along `m`.
    pub open spec fn spec_elements_per_stage_m(&self) -> int {
        self.tile_size.m * self.partition_size.m * self.stage_size.m
    }

    /// Problem elements one work-group consumes along `n`.
    pub open spec fn spec_elements_per_stage_n(&self) -> int {
        self.tile_size.n * self.partition_size.n * self.stage_size.n
    }

    /// Problem elements one work-group consumes along `k`.
    pub open spec fn spec_elements_per_stage_k(&self) -> int {
        self.tile_size.k * self.partition_size.k * self.stage_size.k
    }

    pub fn builder() -> (r: TilingSchemeBuilder)
        ensures
            r.tile_size is None,
            r.partition_size is None,
            r.stage_size is None,
    {
        TilingSchemeBuilder { tile_size: None, partition_size: None, stage_size: None }
    }

    pub fn elements_per_stage_along_m(&self) -> (r: u32)
        requires
            self.wf(),
        ensures
            r == self.spec_elements_per_stage_m(),
            0 < r,
    {
        proof {
            lemma_first_product_fits(
                self.tile_size.m,
                self.partition_size.m,
                self.stage_size.m,
            );
        }
        self.tile_size.m * self.partition_size.m * self.stage_size.m
    }

    pub fn elements_per_stage_along_n(&self) -> (r: u32)
        requires
            self.wf(),
        ensures
            r == self.spec_elements_per_stage_n(),
            0 < r,
    {
        proof {
            lemma_first_product_fits(
                self.tile_size.n,
                self.partition_size.n,
                self.stage_size.n,
            );
        }
        self.tile_size.n * self.partition_size.n * self.stage_size.n
    }

    pub fn elements_per_stage_along_k(&self) -> (r: u32)
        requires
            self.wf(),
        ensures
            r == self.spec_elements_per_stage_k(),
            0 < r,
    {
        proof {
            lemma_first_product_fits(
                self.tile_size.k,
                self.partition_size.k,
                self.stage_size.k,
            );
        }
        self.tile_size.k * self.partition_size.k * self.stage_size.k
    }

    /// Elements one plane handles along `m`: tile x partition.
    pub fn elements_per_partition_along_m(&self) -> (r: u32)
        requires
            self.wf(),
        ensures
            r == self.tile_size.m * self.partition_size.m,
            0 < r,
    {
        proof {
            lemma_first_product_fits(
                self.tile_size.m,
                self.partition_size.m,
                self.stage_size.m,
            );
        }
        self.tile_size.m * self.partition_size.m
    }

    /// Elements one plane handles along `n`: tile x partition.
    pub fn elements_per_partition_along_n(&self) -> (r: u32)
        requires
            self.wf(),
        ensures
            r == self.tile_size.n * self.partition_size.n,
            0 < r,
    {
        proof {
            lemma_first_product_fits(
                self.tile_size.n,
                self.partition_size.n,
                self.stage_size.n,
            );
        }
        self.tile_size.n * self.partition_size.n
    }

    /// Elements one plane handles along `k`: tile x partition.
    pub fn elements_per_partition_along_k(&self) -> (r: u32)
        requires
            self.wf(),
        ensures
            r == self.tile_size.k * self.partition_size.k,
            0 < r,
    {
        proof {
            lemma_first_product_fits(
                self.tile_size.k,
                self.partition_size.k,
                self.stage_size.k,
            );
        }
        self.tile_size.k * self.partition_size.k
    }
}

/// When t * p * s fits in a `u32` and all factors are positive, the
/// partial product t * p fits as well and both products are positive.
proof fn lemma_first_product_fits(t: u32, p: u32, s: u32)
    requires
        0 < t,
        0 < p,
        0 < s,
        t * p * s <= u32::MAX,
    ensures
        t * p <= u32::MAX,
        1 <= t * p,
        1 <= t * p * s,
        t * p * s == (t * p) as int * s,
{
    assert(t * p <= t * p * s && 1 <= t * p && 1 <= t * p * s) by (nonlinear_arith)
        requires
            0 < t,
            0 < p,
            0 < s,
        ;
}

/// Builder for a [`TilingScheme`]; any size vector left unset defaults to
/// one tile, one partition, one stage per axis.
#[derive(Clone, Copy, Debug, PartialEq, Eq, Hash, Structural)]
pub struct TilingSchemeBuilder {
    pub tile_size: Option<TileSize>,
    pub partition_size: Option<PartitionSize>,
    pub stage_size: Option<StageSize>,
}

/// The outcome of building a tiling scheme from the given size vectors
/// under the given per-axis element budget.
pub open spec fn spec_build_tiling_scheme(
    t: TileSize,
    p: PartitionSize,
    s: StageSize,
    max_elements_per_stage: u32,
) -> Result<TilingScheme, MatmulSetupError> {
    let scheme = TilingScheme { tile_size: t, partition_size: p, stage_size: s };
    if !(0 < t.m && 0 < t.n && 0 < t.k && 0 < p.m && 0 < p.n && 0 < p.k && 0 < s.m && 0 < s.n
        && 0 < s.k) {
        Err(MatmulSetupError::InvalidConfig(InvalidConfigError::ZeroTilingDimension))
    } else if scheme.spec_elements_per_stage_m() > max_elements_per_stage
        || scheme.spec_elements_per_stage_n() > max_elements_per_stage
        || scheme.spec_elements_per_stage_k() > max_elements_per_stage {
        Err(MatmulSetupError::InvalidConfig(InvalidConfigError::StageBudgetExceeded))
    } else {
        Ok(scheme)
    }
}

impl TilingSchemeBuilder {
    pub fn with_tile_size(self, tile_size: TileSize) -> (r: Self)
        ensures
            r == (TilingSchemeBuilder { tile_size: Some(tile_size), ..self }),
    {
        TilingSchemeBuilder { tile_size: Some(tile_size), ..self }
    }

    pub fn with_partition_size(self, partition_size: PartitionSize) -> (r: Self)
        ensures
            r == (TilingSchemeBuilder { partition_size: Some(partition_size), ..self }),
    {
        TilingSchemeBuilder { partition_size: Some(partition_size), ..self }
    }

    pub fn with_stage_size(self, stage_size: StageSize) -> (r: Self)
        ensures
            r == (TilingSchemeBuilder { stage_size: Some(stage_size), ..self }),
    {
        TilingSchemeBuilder { stage_size: Some(stage_size), ..self }
    }

    /// The tile size this builder will hand to `build`.
    pub open spec fn spec_tile(&self) -> TileSize {
        match self.tile_size {
            Some(t) => t,
            None => TileSize { m: 1, n: 1, k: 1 },
        }
    }

    /// The partition size this builder will hand to `build`.
    pub open spec fn spec_partition(&self) -> PartitionSize {
        match self.partition_size {
            Some(p) => p,
            None => PartitionSize { m: 1, n: 1, k: 1 },
        }
    }

    /// The stage size this builder will hand to `build`.
    pub open spec fn spec_stage(&self) -> StageSize {
        match self.stage_size {
            Some(s) => s,
            None => StageSize { m: 1, n: 1, k: 1 },
        }
    }

    /// Builds the scheme, rejecting any zero-sized axis and any scheme
    /// whose per-work-group element count along some axis exceeds
    /// `max_elements_per_stage`, an opaque hardware budget supplied by
    /// the caller.
    pub fn build(self, max_elements_per_stage: u32) -> (r: Result<
        TilingScheme,
        MatmulSetupError,
    >)
        ensures
            r == spec_build_tiling_scheme(
                self.spec_tile(),
                self.spec_partition(),
                self.spec_stage(),
                max_elements_per_stage,
            ),
            r matches Ok(scheme) ==> scheme.wf(),
    {
        let t = match self.tile_size {
            Some(t) => t,
            None => TileSize { m: 1, n: 1, k: 1 },
        };
        let p = match self.partition_size {
            Some(p) => p,
            None => PartitionSize { m: 1, n: 1, k: 1 },
        };
        let s = match self.stage_size {
            Some(s) => s,
            None => StageSize { m: 1, n: 1, k: 1 },
        };
        if !(0 < t.m && 0 < t.n && 0 < t.k && 0 < p.m && 0 < p.n && 0 < p.k && 0 < s.m && 0 < s.n
            && 0 < s.k) {
            return Err(MatmulSetupError::InvalidConfig(InvalidConfigError::ZeroTilingDimension));
        }
        proof {
            lemma_u32_product_fits_u64(t.m, p.m);
            lemma_u32_product_fits_u64(t.n, p.n);
            lemma_u32_product_fits_u64(t.k, p.k);
        }
        let em: u64 = (t.m as u64) * (p.m as u64);
        let en: u64 = (t.n as u64) * (p.n as u64);
        let ek: u64 = (t.k as u64) * (p.k as u64);
        let budget = max_elements_per_stage as u64;
        if exceeds_with(em, s.m, budget) || exceeds_with(en, s.n, budget) || exceeds_with(
            ek,
            s.k,
            budget,
        ) {
            return Err(MatmulSetupError::InvalidConfig(InvalidConfigError::StageBudgetExceeded));
        }
        let scheme = TilingScheme { tile_size: t, partition_size: p, stage_size: s };
        proof {
            assert(scheme.spec_elements_per_stage_m() <= max_elements_per_stage);
            assert(scheme.spec_elements_per_stage_n() <= max_elements_per_stage);
            assert(scheme.spec_elements_per_stage_k() <= max_elements_per_stage);
        }
        Ok(scheme)
    }
}

/// The product of two `u32` values fits in a `u64`.
proof fn lemma_u32_product_fits_u64(a: u32, b: u32)
    ensures
        a * b <= u32::MAX as u64 * u32::MAX as u64,
        a * b <= u64::MAX,
{
    assert(a * b <= u32::MAX as u64 * u32::MAX as u64) by (nonlinear_arith)
        requires
            a <= u32::MAX,
            b <= u32::MAX,
        ;
}

/// Whether tp * s exceeds `budget`, computed without overflow.
fn exceeds_with(tp: u64, s: u32, budget: u64) -> (r: bool)
    requires
        tp <= u32::MAX as u64 * u32::MAX as u64,
    ensures
        r == (tp * s > budget),
{
    if s == 0 {
        return false;
    }
    if tp > budget {
        proof {
            assert(tp * s >= tp) by (nonlinear_arith)
                requires
                    1 <= s,
                    0 <= tp,
                ;
        }
        return true;
    }
    // tp <= budget <= u64::MAX, so tp * s may still overflow; divide instead.
    let q = budget / (s as u64);
    proof {
        assert((tp > q) == (tp * s > budget)) by (nonlinear_arith)
            requires
                1 <= s,
                0 <= tp,
                0 <= budget,
                q == budget / (s as u64),
            ;
    }
    tp > q
}

/// A scheme that builds successfully is well-formed: every component is
/// positive and the per-axis element products fit in a `u32`.
pub proof fn lemma_build_ok_wf(
    t: TileSize,
    p: PartitionSize,
    s: StageSize,
    max_elements_per_stage: u32,
)
    ensures
        spec_build_tiling_scheme(t, p, s, max_elements_per_stage) matches Ok(ts) ==> ts.wf(),
{
}

/// For all positive size triples whose per-axis element products stay
/// within the budget, building succeeds and the elements one work-group
/// consumes along each axis equal tile x partition x stage for that axis.
pub proof fn law_build_succeeds(
    t: TileSize,
    p: PartitionSize,
    s: StageSize,
    max_elements_per_stage: u32,
)
    requires
        0 < t.m && 0 < t.n && 0 < t.k,
        0 < p.m && 0 < p.n && 0 < p.k,
        0 < s.m && 0 < s.n && 0 < s.k,
        t.m * p.m * s.m <= max_elements_per_stage,
        t.n * p.n * s.n <= max_elements_per_stage,
        t.k * p.k * s.k <= max_elements_per_stage,
    ensures
        spec_build_tiling_scheme(t, p, s, max_elements_per_stage) matches Ok(scheme) && {
            &&& scheme.spec_elements_per_stage_m() == t.m * p.m * s.m
            &&& scheme.spec_elements_per_stage_n() == t.n * p.n * s.n
            &&& scheme.spec_elements_per_stage_k() == t.k * p.k * s.k
        },
{
}

} // verus!
