use vstd::prelude::*;

use vstd::arithmetic::div_mod::lemma_fundamental_div_mod;

use crate::dtypes::StorageKind;

verus! {

/// Whether the reduced axis runs along or across the vectorized lines.
#[derive(Clone, Copy, Debug, PartialEq, Eq, Hash, Structural)]
pub enum LineMode {
    Parallel,
    Perpendicular,
}

/// How bound checks are handled for inner reductions.
#[derive(Clone, Copy, Debug, PartialEq, Eq, Hash, Structural)]
pub enum BoundChecks {
    /// No bound check is necessary.
    Off,
    /// Using a mask is enough: out-of-bound locations are still read,
    /// but the value is replaced by the null value.
    Mask,
    /// Branching is necessary, e.g. when fusing on read.
    Branch,
}

impl BoundChecks {
    /// The bound-check mode idle units fall back to.
    pub fn idle(self) -> (r: Self)
        ensures
            r == BoundChecks::Mask,
    {
        BoundChecks::Mask
    }
}

/// What units beyond the last reduction do.
#[derive(Clone, Copy, Debug, PartialEq, Eq, Hash, Structural)]
pub enum IdleMode {
    Off,
    Mask,
    Terminate,
}

impl IdleMode {
    /// Whether idle handling is activated.
    pub fn is_enabled(&self) -> (r: bool)
        ensures
            r == (*self != IdleMode::Off),
    {
        !matches!(self, IdleMode::Off)
    }
}

/// The number of reductions the kernel performs: one per output value,
/// or one per input line when the axis runs across lines.
pub open spec fn spec_reduce_count(
    output_size: int,
    line_mode: LineMode,
    input_line_size: int,
) -> int {
    match line_mode {
        LineMode::Parallel => output_size,
        LineMode::Perpendicular => output_size / input_line_size,
    }
}

/// The number of reductions to perform, from the output size in values
/// and the input vectorization.
pub fn reduce_count(output_size: u32, line_mode: LineMode, input_line_size: u32) -> (r: u32)
    requires
        line_mode is Perpendicular ==> 0 < input_line_size,
    ensures
        r == spec_reduce_count(output_size as int, line_mode, input_line_size as int),
{
    match line_mode {
        LineMode::Parallel => output_size,
        LineMode::Perpendicular => output_size / input_line_size,
    }
}

/// What a unit that may lie beyond the last reduction should do.
#[derive(Clone, Copy, Debug, PartialEq, Eq, Hash, Structural)]
pub enum IdleAction {
    /// No idle handling: proceed unconditionally.
    Proceed,
    /// Mask the unit's writes; the flag says whether this unit is idle.
    Mask(bool),
    /// The unit is idle and terminates immediately.
    Terminate,
}

/// Decides what a unit whose first reduction index is
/// `reduce_index_start` should do, from the reduction count and the
/// idle mode: nothing when idle handling is off, a mask of the units
/// past the last reduction, or termination of exactly those units.
pub fn idle_check(
    output_size: u32,
    input_line_size: u32,
    reduce_index_start: u32,
    line_mode: LineMode,
    idle_mode: IdleMode,
) -> (r: IdleAction)
    requires
        line_mode is Perpendicular ==> 0 < input_line_size,
    ensures
        ({
            let count = spec_reduce_count(output_size as int, line_mode, input_line_size as int);
            match idle_mode {
                IdleMode::Off => r == IdleAction::Proceed,
                IdleMode::Mask => r == IdleAction::Mask(reduce_index_start >= count),
                IdleMode::Terminate => r == (if reduce_index_start >= count {
                    IdleAction::Terminate
                } else {
                    IdleAction::Proceed
                }),
            }
        }),
{
    if idle_check_enabled(idle_mode) {
        let count = reduce_count(output_size, line_mode, input_line_size);
        match idle_mode {
            IdleMode::Off => IdleAction::Proceed,
            IdleMode::Mask => IdleAction::Mask(reduce_index_start >= count),
            IdleMode::Terminate => {
                if reduce_index_start >= count {
                    IdleAction::Terminate
                } else {
                    IdleAction::Proceed
                }
            },
        }
    } else {
        IdleAction::Proceed
    }
}

fn idle_check_enabled(idle_mode: IdleMode) -> (r: bool)
    ensures
        r == (idle_mode != IdleMode::Off),
{
    idle_mode.is_enabled()
}

/// base to the power k.
pub open spec fn spec_pow(base: int, k: nat) -> int
    decreases k,
{
    if k == 0 {
        1
    } else {
        spec_pow(base, (k - 1) as nat) * base
    }
}

/// Whether `p` is the smallest power of `base` that covers `x`.
pub open spec fn spec_is_min_cover_power(x: int, base: int, p: int) -> bool {
    exists|k: nat|
        p == #[trigger] spec_pow(base, k) && p >= x && (k == 0 || spec_pow(base, (k - 1) as nat)
            < x)
}

/// The anchored value: the covering power capped at `max_v`, then
/// raised to the minimum if one is given.
pub open spec fn spec_clamp(p: int, min_v: Option<usize>, max_v: int) -> int {
    let capped = if p > max_v {
        max_v
    } else {
        p
    };
    match min_v {
        Some(m) => if capped < m {
            m as int
        } else {
            capped
        },
        None => capped,
    }
}

/// The smallest power of `base` that is at least `x`, by repeated
/// multiplication.
fn next_cover_power(x: usize, base: usize, cap: usize) -> (r: usize)
    requires
        2 <= base,
        x <= cap,
        cap <= usize::MAX / base,
    ensures
        spec_is_min_cover_power(x as int, base as int, r as int),
        x as int <= r,
{
    proof {
        lemma_fundamental_div_mod(usize::MAX as int, base as int);
        assert((cap as int) * (base as int) <= usize::MAX) by (nonlinear_arith)
            requires
                cap <= usize::MAX as int / (base as int),
                (base as int) * (usize::MAX as int / (base as int)) <= usize::MAX,
                2 <= base,
            ;
    }
    let mut p: usize = 1;
    let ghost mut k: nat = 0;
    while p < x
        invariant
            1 <= p,
            2 <= base,
            x <= cap,
            (cap as int) * (base as int) <= usize::MAX,
            p == spec_pow(base as int, k),
            k == 0 || spec_pow(base as int, (k - 1) as nat) < x,
        decreases (if p < x { x - p } else { 0int }),
    {
        proof {
            assert((p as int) * (base as int) <= (cap as int) * (base as int))
                by (nonlinear_arith)
                requires
                    p < x <= cap,
                    2 <= base,
                ;
            assert((p as int) * (base as int) >= 2 * (p as int)) by (nonlinear_arith)
                requires
                    1 <= p,
                    2 <= base,
                ;
        }
        p = p * base;
        proof {
            k = k + 1;
        }
    }
    proof {
        assert(spec_is_min_cover_power(x as int, base as int, p as int)) by {
            assert(p == spec_pow(base as int, k) && p >= x && (k == 0 || spec_pow(
                base as int,
                (k - 1) as nat,
            ) < x));
        }
    }
    p
}

/// Rounds `x` up to the next power of `base`, capped at `max_v` and
/// raised to `min_v` if one is given, so that nearby sizes share one
/// autotune key.
pub fn anchor_exp(x: usize, min_v: Option<usize>, max_v: usize, base: usize) -> (r: usize)
    requires
        2 <= base,
        1 <= max_v,
        max_v <= usize::MAX / base,
        min_v matches Some(m) ==> m <= max_v,
    ensures
        x >= max_v ==> r == max_v,
        x < max_v ==> exists|p: int|
            spec_is_min_cover_power(x as int, base as int, p) && r == spec_clamp(
                p,
                min_v,
                max_v as int,
            ),
{
    if x >= max_v {
        return max_v;
    }
    let p = next_cover_power(x, base, max_v);
    let capped = if p > max_v {
        max_v
    } else {
        p
    };
    let r = match min_v {
        Some(m) => {
            if capped < m {
                m
            } else {
                capped
            }
        },
        None => capped,
    };
    proof {
        assert(spec_is_min_cover_power(x as int, base as int, p as int) && r == spec_clamp(
            p as int,
            min_v,
            max_v as int,
        ));
    }
    r
}

/// Autotune key representative of reduce versions: the element types,
/// whether the reduced axis is contiguous, and the anchored size and
/// count of the vectors to reduce.
#[derive(Clone, Copy, Debug, PartialEq, Eq, Hash, Structural)]
pub struct ReduceAutotuneKey {
    pub elem_input: StorageKind,
    pub elem_output: StorageKind,
    pub elem_acc: StorageKind,
    /// Whether the reduced axis is contiguous.
    pub axis_is_contiguous: bool,
    /// The length of the vector to reduce, anchored to powers of 4
    /// between 16 and 1024.
    pub vector_size: usize,
    /// The number of vectors to reduce, anchored to powers of 8 up
    /// to 32768.
    pub vector_count: usize,
}

/// The product of every dimension of `s` before index `i` except the
/// reduced axis.
pub open spec fn spec_prod_excl(s: Seq<usize>, axis: int, i: int) -> int
    decreases i,
{
    if i <= 0 {
        1
    } else {
        spec_prod_excl(s, axis, i - 1) * (if i - 1 == axis {
            1
        } else {
            s[i - 1] as int
        })
    }
}

impl ReduceAutotuneKey {
    /// Builds the key, anchoring the raw vector size and count.
    pub fn new(
        elem_input: StorageKind,
        elem_output: StorageKind,
        elem_acc: StorageKind,
        axis_is_contiguous: bool,
        vector_size_raw: usize,
        vector_count_raw: usize,
    ) -> (r: ReduceAutotuneKey)
        ensures
            r.elem_input == elem_input,
            r.elem_output == elem_output,
            r.elem_acc == elem_acc,
            r.axis_is_contiguous == axis_is_contiguous,
            vector_size_raw >= 1024 ==> r.vector_size == 1024,
            vector_size_raw < 1024 ==> exists|p: int|
                spec_is_min_cover_power(vector_size_raw as int, 4, p) && r.vector_size
                    == spec_clamp(p, Some(16usize), 1024),
            vector_count_raw >= 32768 ==> r.vector_count == 32768,
            vector_count_raw < 32768 ==> exists|p: int|
                spec_is_min_cover_power(vector_count_raw as int, 8, p) && r.vector_count
                    == spec_clamp(p, None, 32768),
    {
        let vector_size = anchor_exp(vector_size_raw, Some(16), 1024, 4);
        let vector_count = anchor_exp(vector_count_raw, None, 32768, 8);
        ReduceAutotuneKey {
            elem_input,
            elem_output,
            elem_acc,
            axis_is_contiguous,
            vector_size,
            vector_count,
        }
    }

    /// Builds the key from an input shape and the reduced axis: the
    /// vector size is the reduced dimension, the vector count the
    /// product of every other dimension.
    pub fn generate(
        elem_input: StorageKind,
        elem_output: StorageKind,
        elem_acc: StorageKind,
        input_shape: &Vec<usize>,
        axis_is_contiguous: bool,
        axis: usize,
    ) -> (r: ReduceAutotuneKey)
        requires
            axis < input_shape.len(),
            forall|i: int|
                0 <= i <= input_shape.len() ==> spec_prod_excl(input_shape@, axis as int, i)
                    <= usize::MAX,
        ensures
            r.elem_input == elem_input,
            r.elem_output == elem_output,
            r.elem_acc == elem_acc,
            r.axis_is_contiguous == axis_is_contiguous,
            ({
                let raw_size = input_shape@[axis as int] as int;
                &&& raw_size >= 1024 ==> r.vector_size == 1024
                &&& raw_size < 1024 ==> exists|p: int|
                    spec_is_min_cover_power(raw_size, 4, p) && r.vector_size == spec_clamp(
                        p,
                        Some(16usize),
                        1024,
                    )
            }),
            ({
                let raw_count = spec_prod_excl(
                    input_shape@,
                    axis as int,
                    input_shape.len() as int,
                );
                &&& raw_count >= 32768 ==> r.vector_count == 32768
                &&& raw_count < 32768 ==> exists|p: int|
                    spec_is_min_cover_power(raw_count, 8, p) && r.vector_count == spec_clamp(
                        p,
                        None,
                        32768,
                    )
            }),
    {
        let reduce_axis_shape = input_shape[axis];
        let ghost s = input_shape@;
        let mut reduce_count_acc: usize = 1;
        let mut i: usize = 0;
        while i < input_shape.len()
            invariant
                i <= input_shape.len(),
                axis < input_shape.len(),
                reduce_count_acc == spec_prod_excl(s, axis as int, i as int),
                s == input_shape@,
                forall|j: int|
                    0 <= j <= input_shape.len() ==> spec_prod_excl(s, axis as int, j)
                        <= usize::MAX,
            decreases input_shape.len() - i,
        {
            let factor: usize = if i == axis {
                1
            } else {
                input_shape[i]
            };
            proof {
                assert(spec_prod_excl(s, axis as int, i + 1) == spec_prod_excl(
                    s,
                    axis as int,
                    i as int,
                ) * (if i as int == axis as int {
                    1int
                } else {
                    s[i as int] as int
                }));
                assert(spec_prod_excl(s, axis as int, i + 1) <= usize::MAX);
            }
            reduce_count_acc = reduce_count_acc * factor;
            i = i + 1;
        }
        ReduceAutotuneKey::new(
            elem_input,
            elem_output,
            elem_acc,
            axis_is_contiguous,
            reduce_axis_shape,
            reduce_count_acc,
        )
    }
}

} // verus!
