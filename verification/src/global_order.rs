use vstd::prelude::*;

use vstd::arithmetic::div_mod::{
    lemma_basic_div, lemma_div_by_self, lemma_div_is_ordered, lemma_div_pos_is_pos,
    lemma_fundamental_div_mod, lemma_fundamental_div_mod_converse,
    lemma_mod_division_less_than_divisor, lemma_small_mod,
};

use crate::tiling::TilingScheme;

verus! {

/// For the nth work-group launched, which (m-block, n-block) pair it
/// owns: a plain row-major scan, or a swizzled scan that folds groups of
/// `w` consecutive m-block rows into one super-row visited together with
/// all n-blocks before advancing, to improve reuse of the operand held
/// stationary across a super-row.
#[derive(Clone, Copy, Debug, PartialEq, Eq, Hash, Structural)]
pub enum GlobalOrder {
    RowMajor,
    SwizzleRowMajor(u32),
}

/// Front-facing choice of a [`GlobalOrder`], made before the block
/// counts are known.
#[derive(Clone, Copy, Debug, PartialEq, Eq, Hash, Structural)]
pub enum GlobalOrderStrategy {
    Standard,
    /// Swizzle rows of m-blocks with fold width `w`, for a problem of
    /// `m` rows.
    SwizzleRow { m: u32, w: u32 },
}

impl Default for GlobalOrderStrategy {
    fn default() -> (r: Self)
        ensures
            r == GlobalOrderStrategy::Standard,
    {
        GlobalOrderStrategy::Standard
    }
}

/// Number of blocks needed to cover `size` elements in groups of
/// `per_block` elements.
pub open spec fn spec_div_ceil(size: int, per_block: int) -> int {
    (size + per_block - 1) / per_block
}

/// ceil(size / per_block), without overflow.
pub fn div_ceil_u32(size: u32, per_block: u32) -> (r: u32)
    requires
        per_block > 0,
    ensures
        r == spec_div_ceil(size as int, per_block as int),
        size > 0 ==> r > 0,
        r <= size,
{
    let d: u64 = (size as u64 + per_block as u64 - 1) / (per_block as u64);
    proof {
        let s = size as int;
        let p = per_block as int;
        if s > 0 {
            lemma_div_is_ordered(p, s + p - 1, p);
            lemma_div_by_self(p);
        } else {
            lemma_basic_div(p - 1, p);
        }
        // (s + p - 1) / p <= s: for s == 0 the quotient is 0; otherwise
        // s + p - 1 <= s * p and s * p / p == s.
        if s > 0 {
            assert(s + p - 1 <= s * p) by (nonlinear_arith)
                requires
                    1 <= p,
                    1 <= s,
                ;
            lemma_div_is_ordered(s + p - 1, s * p, p);
            lemma_fundamental_div_mod_converse(s * p, p, s, 0);
        }
    }
    d as u32
}

impl GlobalOrderStrategy {
    /// Resolves the strategy against a tiling scheme: a swizzle is kept
    /// only when the fold width is positive and divides the number of
    /// m-block rows evenly; otherwise the order degenerates to the
    /// row-major scan.
    pub fn into_order(self, tiling_scheme: &TilingScheme) -> (r: GlobalOrder)
        requires
            tiling_scheme.wf(),
        ensures
            self is Standard ==> r == GlobalOrder::RowMajor,
            self matches GlobalOrderStrategy::SwizzleRow { m, w } ==> {
                let rows = spec_div_ceil(m as int, tiling_scheme.spec_elements_per_stage_m());
                if w > 0 && rows % (w as int) == 0 {
                    r == GlobalOrder::SwizzleRowMajor(w)
                } else {
                    r == GlobalOrder::RowMajor
                }
            },
    {
        match self {
            GlobalOrderStrategy::Standard => GlobalOrder::RowMajor,
            GlobalOrderStrategy::SwizzleRow { m, w } => {
                let rows = div_ceil_u32(m, tiling_scheme.elements_per_stage_along_m());
                if w > 0 && rows % w == 0 {
                    GlobalOrder::SwizzleRowMajor(w)
                } else {
                    GlobalOrder::RowMajor
                }
            },
        }
    }
}

/// The m-block the ith work-group owns under a swizzle of width `w` over
/// `n_blocks` columns: its super-row times `w`, plus its position inside
/// the fold.
pub open spec fn spec_swizzle_m(i: int, n_blocks: int, w: int) -> int {
    (i / (w * n_blocks)) * w + (i % (w * n_blocks)) % w
}

/// The n-block the ith work-group owns under a swizzle of width `w` over
/// `n_blocks` columns.
pub open spec fn spec_swizzle_n(i: int, n_blocks: int, w: int) -> int {
    (i % (w * n_blocks)) / w
}

/// The linear index that owns block (m, n) under a swizzle of width `w`:
/// the inverse of `spec_swizzle_m` / `spec_swizzle_n`.
pub open spec fn spec_swizzle_inverse(m: int, n: int, n_blocks: int, w: int) -> int {
    (m / w) * (w * n_blocks) + n * w + m % w
}

/// The (m-block, n-block) pair the ith work-group owns under this
/// order.
pub open spec fn spec_order_map(order: GlobalOrder, i: int, n_blocks: int) -> (int, int) {
    match order {
        GlobalOrder::RowMajor => (i / n_blocks, i % n_blocks),
        GlobalOrder::SwizzleRowMajor(w) => (
            spec_swizzle_m(i, n_blocks, w as int),
            spec_swizzle_n(i, n_blocks, w as int),
        ),
    }
}

impl GlobalOrder {
    /// A swizzle width must be positive and divide the m-block count.
    pub open spec fn wf_for(self, m_blocks: int) -> bool {
        match self {
            GlobalOrder::RowMajor => true,
            GlobalOrder::SwizzleRowMajor(w) => 0 < w && m_blocks % (w as int) == 0,
        }
    }

    /// The (m-block, n-block) pair the `nth` work-group launched owns.
    /// Every block of the m x n block grid is owned by exactly one
    /// work-group index.
    pub fn map_index(self, nth: u32, m_blocks: u32, n_blocks: u32) -> (r: (u32, u32))
        requires
            0 < m_blocks,
            0 < n_blocks,
            m_blocks * n_blocks <= u32::MAX,
            nth < m_blocks * n_blocks,
            self.wf_for(m_blocks as int),
        ensures
            (r.0 as int, r.1 as int) == spec_order_map(self, nth as int, n_blocks as int),
            r.0 < m_blocks,
            r.1 < n_blocks,
    {
        match self {
            GlobalOrder::RowMajor => {
                proof {
                    lemma_row_major_in_range(nth as int, m_blocks as int, n_blocks as int);
                }
                (nth / n_blocks, nth % n_blocks)
            },
            GlobalOrder::SwizzleRowMajor(w) => {
                proof {
                    // w divides m_blocks and m_blocks > 0, so w <= m_blocks.
                    if w > m_blocks {
                        lemma_small_mod(m_blocks as nat, w as nat);
                    }
                    assert(w * n_blocks <= m_blocks * n_blocks) by (nonlinear_arith)
                        requires
                            0 < w <= m_blocks,
                            0 < n_blocks,
                        ;
                    lemma_swizzle_bijection(
                        nth as int,
                        m_blocks as int,
                        n_blocks as int,
                        w as int,
                    );
                }
                let group: u32 = w * n_blocks;
                proof {
                    assert(w * n_blocks > 0) by (nonlinear_arith)
                        requires
                            0 < w,
                            0 < n_blocks,
                        ;
                }
                let q: u32 = nth / group;
                let r: u32 = nth % group;
                proof {
                    lemma_mod_division_less_than_divisor(nth as int, group as int);
                    lemma_mod_division_less_than_divisor(r as int, w as int);
                    assert(q * w + r % w == spec_swizzle_m(nth as int, n_blocks as int, w as int));
                }
                (q * w + r % w, r / w)
            },
        }
    }
}

/// In a row-major scan of an m x n block grid, index i lands on row
/// i / n and column i % n, both in range.
proof fn lemma_row_major_in_range(i: int, m_blocks: int, n_blocks: int)
    requires
        0 < m_blocks,
        0 < n_blocks,
        0 <= i < m_blocks * n_blocks,
    ensures
        0 <= i / n_blocks < m_blocks,
        0 <= i % n_blocks < n_blocks,
{
    lemma_div_pos_is_pos(i, n_blocks);
    lemma_mod_division_less_than_divisor(i, n_blocks);
    assert((m_blocks - 1) * n_blocks + (n_blocks - 1) == m_blocks * n_blocks - 1)
        by (nonlinear_arith);
    lemma_fundamental_div_mod_converse(
        m_blocks * n_blocks - 1,
        n_blocks,
        m_blocks - 1,
        n_blocks - 1,
    );
    lemma_div_is_ordered(i, m_blocks * n_blocks - 1, n_blocks);
}

/// Swizzled global order is injective: every work-group index below
/// m_blocks x n_blocks lands on a block of the grid, and the inverse
/// mapping takes that block back to the same index. Together with
/// [`lemma_swizzle_covers`] this makes the swizzle a bijection between
/// work-group indices and (m-block, n-block) pairs.
pub proof fn lemma_swizzle_bijection(i: int, m_blocks: int, n_blocks: int, w: int)
    requires
        0 < w,
        0 < m_blocks,
        0 < n_blocks,
        m_blocks % w == 0,
        0 <= i < m_blocks * n_blocks,
    ensures
        0 <= spec_swizzle_m(i, n_blocks, w) < m_blocks,
        0 <= spec_swizzle_n(i, n_blocks, w) < n_blocks,
        spec_swizzle_inverse(
            spec_swizzle_m(i, n_blocks, w),
            spec_swizzle_n(i, n_blocks, w),
            n_blocks,
            w,
        ) == i,
{
    let c = w * n_blocks;
    assert(0 < c) by (nonlinear_arith)
        requires
            0 < w,
            0 < n_blocks,
            c == w * n_blocks,
        ;
    let q = i / c;
    let r = i % c;
    lemma_fundamental_div_mod(i, c);
    lemma_mod_division_less_than_divisor(i, c);
    lemma_div_pos_is_pos(i, c);
    let rq = r / w;
    let rm = r % w;
    lemma_fundamental_div_mod(r, w);
    lemma_mod_division_less_than_divisor(r, w);
    lemma_div_pos_is_pos(r, w);

    // The number of super-rows.
    let kk = m_blocks / w;
    lemma_fundamental_div_mod(m_blocks, w);
    assert(m_blocks == kk * w) by (nonlinear_arith)
        requires
            m_blocks == w * kk + m_blocks % w,
            m_blocks % w == 0,
        ;

    // q ranges over the super-rows: i <= kk * c - 1, so q <= kk - 1.
    assert(m_blocks * n_blocks == kk * c) by (nonlinear_arith)
        requires
            m_blocks == kk * w,
            c == w * n_blocks,
        ;
    assert((kk - 1) * c + (c - 1) == kk * c - 1) by (nonlinear_arith);
    lemma_fundamental_div_mod_converse(kk * c - 1, c, kk - 1, c - 1);
    lemma_div_is_ordered(i, kk * c - 1, c);
    assert(q <= kk - 1);

    // The swizzled m-block: m == q * w + rm with 0 <= rm < w.
    let m = spec_swizzle_m(i, n_blocks, w);
    assert(m == q * w + rm);
    assert(0 <= m < m_blocks) by (nonlinear_arith)
        requires
            m == q * w + rm,
            0 <= q <= kk - 1,
            0 <= rm < w,
            m_blocks == kk * w,
        ;

    // The swizzled n-block: n == r / w < n_blocks since r < w * n_blocks.
    let n = spec_swizzle_n(i, n_blocks, w);
    assert(n == rq);
    assert((n_blocks - 1) * w + (w - 1) == c - 1) by (nonlinear_arith)
        requires
            c == w * n_blocks,
        ;
    lemma_fundamental_div_mod_converse(c - 1, w, n_blocks - 1, w - 1);
    lemma_div_is_ordered(r, c - 1, w);
    assert(n < n_blocks);

    // Recovering i: m / w == q and m % w == rm, so the inverse formula
    // rebuilds q * c + r.
    lemma_fundamental_div_mod_converse(m, w, q, rm);
    assert(spec_swizzle_inverse(m, n, n_blocks, w) == q * c + (rq * w + rm));
    assert(rq * w + rm == r) by (nonlinear_arith)
        requires
            r == w * rq + rm,
        ;
    assert(q * c + r == i) by (nonlinear_arith)
        requires
            i == c * q + r,
        ;
}

/// Swizzled global order is surjective: every (m-block, n-block) pair of
/// the grid is owned by a work-group index below m_blocks x n_blocks,
/// namely the one the inverse mapping names.
pub proof fn lemma_swizzle_covers(m: int, n: int, m_blocks: int, n_blocks: int, w: int)
    requires
        0 < w,
        0 < m_blocks,
        0 < n_blocks,
        m_blocks % w == 0,
        0 <= m < m_blocks,
        0 <= n < n_blocks,
    ensures
        0 <= spec_swizzle_inverse(m, n, n_blocks, w) < m_blocks * n_blocks,
        spec_swizzle_m(spec_swizzle_inverse(m, n, n_blocks, w), n_blocks, w) == m,
        spec_swizzle_n(spec_swizzle_inverse(m, n, n_blocks, w), n_blocks, w) == n,
{
    let c = w * n_blocks;
    assert(0 < c) by (nonlinear_arith)
        requires
            0 < w,
            0 < n_blocks,
            c == w * n_blocks,
        ;
    let q = m / w;
    let rm = m % w;
    lemma_fundamental_div_mod(m, w);
    lemma_mod_division_less_than_divisor(m, w);
    lemma_div_pos_is_pos(m, w);

    let kk = m_blocks / w;
    lemma_fundamental_div_mod(m_blocks, w);
    assert(m_blocks == kk * w) by (nonlinear_arith)
        requires
            m_blocks == w * kk + m_blocks % w,
            m_blocks % w == 0,
        ;

    // q <= kk - 1 because m <= kk * w - 1.
    assert((kk - 1) * w + (w - 1) == kk * w - 1) by (nonlinear_arith);
    lemma_fundamental_div_mod_converse(kk * w - 1, w, kk - 1, w - 1);
    lemma_div_is_ordered(m, kk * w - 1, w);
    assert(q <= kk - 1);

    let i = spec_swizzle_inverse(m, n, n_blocks, w);
    let r = n * w + rm;
    assert(i == q * c + r);
    assert(0 <= r < c) by (nonlinear_arith)
        requires
            r == n * w + rm,
            0 <= n <= n_blocks - 1,
            0 <= rm < w,
            c == w * n_blocks,
        ;

    // Range of i: q <= kk - 1 and r <= c - 1 give i <= kk * c - 1.
    assert(m_blocks * n_blocks == kk * c) by (nonlinear_arith)
        requires
            m_blocks == kk * w,
            c == w * n_blocks,
        ;
    assert(0 <= i < kk * c) by (nonlinear_arith)
        requires
            i == q * c + r,
            0 <= q <= kk - 1,
            0 <= r < c,
            0 < c,
        ;

    // i / c == q and i % c == r.
    lemma_fundamental_div_mod_converse(i, c, q, r);
    // r / w == n and r % w == rm.
    lemma_fundamental_div_mod_converse(r, w, n, rm);
    // So the forward mapping returns exactly (m, n).
    assert(spec_swizzle_m(i, n_blocks, w) == q * w + rm);
    assert(q * w + rm == m) by (nonlinear_arith)
        requires
            m == w * q + rm,
        ;
}

} // verus!
