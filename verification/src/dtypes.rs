use vstd::prelude::*;

verus! {

/// The storage formats the planner distinguishes. The planner never
/// touches element values; it only decides which format each operand
/// uses at each memory level.
#[derive(Clone, Copy, Debug, PartialEq, Eq, Hash, Structural)]
pub enum StorageKind {
    F64,
    F32,
    /// Relaxed-precision 32-bit float: stored as 32 bits, may be computed
    /// at reduced precision.
    Flex32,
    /// 19-bit tensor-core float stored in 32 bits.
    Tf32,
    F16,
    Bf16,
    U8,
    U16,
    U32,
    U64,
    I8,
    I16,
    I32,
    I64,
}

/// Global-memory element type of each operand.
#[derive(Clone, Copy, Debug, PartialEq, Eq, Hash, Structural)]
pub struct MatmulGlobalElems {
    pub lhs: StorageKind,
    pub rhs: StorageKind,
    pub out: StorageKind,
}

/// Element type of each operand at each memory level: global memory,
/// shared-memory stage, and registers.
#[derive(Clone, Copy, Debug, PartialEq, Eq, Hash, Structural)]
pub struct MatmulElems {
    pub lhs_global: StorageKind,
    pub rhs_global: StorageKind,
    pub acc_global: StorageKind,
    pub lhs_stage: StorageKind,
    pub rhs_stage: StorageKind,
    pub acc_stage: StorageKind,
    pub lhs_register: StorageKind,
    pub rhs_register: StorageKind,
    pub acc_register: StorageKind,
}

/// Which operand of the matmul an element type or config refers to.
#[derive(Clone, Copy, Debug, PartialEq, Eq, Hash, Structural)]
pub enum MatmulIdent {
    Lhs,
    Rhs,
    Out,
}

/// The accumulator type chosen for a given output type: half-precision
/// outputs accumulate in `F32`, every other type accumulates in itself.
pub open spec fn spec_acc_type_for(out: StorageKind) -> StorageKind {
    if out == StorageKind::F16 || out == StorageKind::Bf16 {
        StorageKind::F32
    } else {
        out
    }
}

impl MatmulElems {
    /// Derives the per-level element types from the global types alone:
    /// stage and register types start equal to the global types, and the
    /// accumulator is widened to `F32` for half-precision outputs.
    pub fn from_globals(global_elems: &MatmulGlobalElems) -> (r: MatmulElems)
        ensures
            r.lhs_global == global_elems.lhs,
            r.rhs_global == global_elems.rhs,
            r.acc_global == global_elems.out,
            r.lhs_stage == global_elems.lhs,
            r.rhs_stage == global_elems.rhs,
            r.acc_stage == spec_acc_type_for(global_elems.out),
            r.lhs_register == global_elems.lhs,
            r.rhs_register == global_elems.rhs,
            r.acc_register == spec_acc_type_for(global_elems.out),
    {
        let acc_type = if matches!(global_elems.out, StorageKind::F16 | StorageKind::Bf16) {
            StorageKind::F32
        } else {
            global_elems.out
        };
        MatmulElems {
            lhs_global: global_elems.lhs,
            rhs_global: global_elems.rhs,
            acc_global: global_elems.out,
            lhs_stage: global_elems.lhs,
            rhs_stage: global_elems.rhs,
            acc_stage: acc_type,
            lhs_register: global_elems.lhs,
            rhs_register: global_elems.rhs,
            acc_register: acc_type,
        }
    }

    /// Uses one type at every level for every operand.
    pub fn from_single_dtype(dtype: StorageKind) -> (r: MatmulElems)
        ensures
            r == (MatmulElems {
                lhs_global: dtype,
                rhs_global: dtype,
                acc_global: dtype,
                lhs_stage: dtype,
                rhs_stage: dtype,
                acc_stage: dtype,
                lhs_register: dtype,
                rhs_register: dtype,
                acc_register: dtype,
            }),
    {
        MatmulElems {
            lhs_global: dtype,
            rhs_global: dtype,
            acc_global: dtype,
            lhs_stage: dtype,
            rhs_stage: dtype,
            acc_stage: dtype,
            lhs_register: dtype,
            rhs_register: dtype,
            acc_register: dtype,
        }
    }

    /// Builds the element set from one `[lhs, rhs, acc]` triple per
    /// memory level.
    pub fn from_define_arrays(
        global: [StorageKind; 3],
        stage: [StorageKind; 3],
        register: [StorageKind; 3],
    ) -> (r: MatmulElems)
        ensures
            r.lhs_global == global[0] && r.rhs_global == global[1] && r.acc_global == global[2],
            r.lhs_stage == stage[0] && r.rhs_stage == stage[1] && r.acc_stage == stage[2],
            r.lhs_register == register[0] && r.rhs_register == register[1] && r.acc_register
                == register[2],
    {
        MatmulElems {
            lhs_global: global[0],
            rhs_global: global[1],
            acc_global: global[2],
            lhs_stage: stage[0],
            rhs_stage: stage[1],
            acc_stage: stage[2],
            lhs_register: register[0],
            rhs_register: register[1],
            acc_register: register[2],
        }
    }

    /// The global-memory type of the given operand.
    pub fn global(&self, ident: MatmulIdent) -> (r: StorageKind)
        ensures
            ident == MatmulIdent::Lhs ==> r == self.lhs_global,
            ident == MatmulIdent::Rhs ==> r == self.rhs_global,
            ident == MatmulIdent::Out ==> r == self.acc_global,
    {
        match ident {
            MatmulIdent::Lhs => self.lhs_global,
            MatmulIdent::Rhs => self.rhs_global,
            MatmulIdent::Out => self.acc_global,
        }
    }

    /// The stage (shared-memory) type of the given operand.
    pub fn stage(&self, ident: MatmulIdent) -> (r: StorageKind)
        ensures
            ident == MatmulIdent::Lhs ==> r == self.lhs_stage,
            ident == MatmulIdent::Rhs ==> r == self.rhs_stage,
            ident == MatmulIdent::Out ==> r == self.acc_stage,
    {
        match ident {
            MatmulIdent::Lhs => self.lhs_stage,
            MatmulIdent::Rhs => self.rhs_stage,
            MatmulIdent::Out => self.acc_stage,
        }
    }

    /// The register type of the given operand.
    pub fn register(&self, ident: MatmulIdent) -> (r: StorageKind)
        ensures
            ident == MatmulIdent::Lhs ==> r == self.lhs_register,
            ident == MatmulIdent::Rhs ==> r == self.rhs_register,
            ident == MatmulIdent::Out ==> r == self.acc_register,
    {
        match ident {
            MatmulIdent::Lhs => self.lhs_register,
            MatmulIdent::Rhs => self.rhs_register,
            MatmulIdent::Out => self.acc_register,
        }
    }

    /// Projects the global-memory types back out.
    pub fn as_global_elems(&self) -> (r: MatmulGlobalElems)
        ensures
            r == (MatmulGlobalElems {
                lhs: self.lhs_global,
                rhs: self.rhs_global,
                out: self.acc_global,
            }),
    {
        MatmulGlobalElems { lhs: self.lhs_global, rhs: self.rhs_global, out: self.acc_global }
    }

    /// Prefer the global type for the stage because it is the same size
    /// at best, but often smaller; a stage equal to the global type also
    /// enables hardware bulk-transfer paths.
    pub fn adjust_stage_dtypes(&mut self)
        ensures
            *final(self) == (MatmulElems {
                lhs_stage: old(self).lhs_global,
                rhs_stage: old(self).rhs_global,
                acc_stage: old(self).acc_global,
                ..*old(self)
            }),
    {
        self.lhs_stage = self.lhs_global;
        self.rhs_stage = self.rhs_global;
        self.acc_stage = self.acc_global;
    }
}

/// The element types a family that can cast its stage elements computes
/// with: stages mirror the global types, and only the accumulator
/// register is widened for half-precision outputs. This is
/// `from_globals` followed by `adjust_stage_dtypes`.
pub open spec fn spec_cast_stage_dtypes(g: MatmulGlobalElems) -> MatmulElems {
    MatmulElems {
        lhs_global: g.lhs,
        rhs_global: g.rhs,
        acc_global: g.out,
        lhs_stage: g.lhs,
        rhs_stage: g.rhs,
        acc_stage: g.out,
        lhs_register: g.lhs,
        rhs_register: g.rhs,
        acc_register: spec_acc_type_for(g.out),
    }
}

/// The element set `adjust_dtypes` settles on: on accelerated paths an
/// `F32`/`F32` input pair is staged as `Tf32` when the device supports
/// it, and a `Flex32`/`Flex32` pair as `F16`; anything else, and any
/// unsupported downgrade, keeps the original, safer types.
pub open spec fn spec_adjust_dtypes(
    dtypes: MatmulElems,
    requires_accelerator: bool,
    supports_tf32: bool,
    supports_f16: bool,
) -> MatmulElems {
    if requires_accelerator && dtypes.lhs_global == StorageKind::F32 && dtypes.rhs_global
        == StorageKind::F32 && supports_tf32 {
        MatmulElems {
            lhs_stage: StorageKind::Tf32,
            rhs_stage: StorageKind::Tf32,
            lhs_register: StorageKind::Tf32,
            rhs_register: StorageKind::Tf32,
            ..dtypes
        }
    } else if requires_accelerator && dtypes.lhs_global == StorageKind::Flex32
        && dtypes.rhs_global == StorageKind::Flex32 && supports_f16 {
        MatmulElems {
            lhs_stage: StorageKind::F16,
            rhs_stage: StorageKind::F16,
            lhs_register: StorageKind::F16,
            rhs_register: StorageKind::F16,
            ..dtypes
        }
    } else {
        dtypes
    }
}

/// Downgrades the staged and register input types to a faster
/// hardware-native format when the device reports support for it. This
/// is a best-effort downgrade, never a failure: unsupported combinations
/// keep the original types.
pub fn adjust_dtypes(
    dtypes: &mut MatmulElems,
    requires_accelerator: bool,
    supports_tf32: bool,
    supports_f16: bool,
)
    ensures
        *final(dtypes) == spec_adjust_dtypes(
            *old(dtypes),
            requires_accelerator,
            supports_tf32,
            supports_f16,
        ),
{
    if requires_accelerator {
        if matches!(dtypes.lhs_global, StorageKind::F32) && matches!(
            dtypes.rhs_global,
            StorageKind::F32,
        ) && supports_tf32 {
            dtypes.lhs_stage = StorageKind::Tf32;
            dtypes.rhs_stage = StorageKind::Tf32;
            dtypes.lhs_register = StorageKind::Tf32;
            dtypes.rhs_register = StorageKind::Tf32;
        } else if matches!(dtypes.lhs_global, StorageKind::Flex32) && matches!(
            dtypes.rhs_global,
            StorageKind::Flex32,
        ) && supports_f16 {
            dtypes.lhs_stage = StorageKind::F16;
            dtypes.rhs_stage = StorageKind::F16;
            dtypes.lhs_register = StorageKind::F16;
            dtypes.rhs_register = StorageKind::F16;
        }
    }
}

} // verus!
