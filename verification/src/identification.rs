//! Processor identification data and the capability checks that the
//! x86 counter read performs before touching the counter.

use vstd::prelude::*;

verus! {

/// The four registers returned by one processor identification query
/// (one numbered leaf). The values are read transiently per query and
/// are not persisted.
#[derive(Clone, Copy, Debug, PartialEq, Eq, Structural)]
pub struct CpuidRegisters {
    pub eax: u32,
    pub ebx: u32,
    pub ecx: u32,
    pub edx: u32,
}

/// Bit 4 of leaf 1's edx register: the processor has a time-stamp counter.
pub const TSC_SUPPORT_BIT: u32 = 0x10;

/// Bit 8 of extended leaf 0x80000007's edx register: the counter runs at a
/// constant rate, independent of power states (invariant counter).
pub const INVARIANT_TSC_SUPPORT_BIT: u32 = 0x100;

/// The capability that hardware-feature validation found missing.
///
/// The timing facility's correctness depends on an invariant counter, so a
/// missing capability is an unrecoverable configuration error; the caller
/// decides whether to abort on it.
#[derive(Clone, Copy, Debug, PartialEq, Eq, Structural)]
pub enum CounterSupportError {
    /// Leaf 1 does not report a time-stamp counter.
    TscUnsupported,
    /// Extended leaf 0x80000007 does not report the invariant property.
    InvariantTscUnsupported,
}

/// Leaf 1 reports presence of the time-stamp counter.
pub open spec fn reports_tsc(leaf1: CpuidRegisters) -> bool {
    leaf1.edx & TSC_SUPPORT_BIT == TSC_SUPPORT_BIT
}

/// Extended leaf 0x80000007 reports the invariant (constant-rate) property.
pub open spec fn reports_invariant_tsc(extended_leaf: CpuidRegisters) -> bool {
    extended_leaf.edx & INVARIANT_TSC_SUPPORT_BIT == INVARIANT_TSC_SUPPORT_BIT
}

} // verus!
