//! The architecture-neutral counter contract and the verified part of
//! the x86 implementation.
//!
//! A platform layer binds exactly one hardware-backed implementation of
//! [`ArchFunctionality`] at compile-configuration time. The x86 one
//! reads the time-stamp counter; before the first read it may validate
//! the capability bits checked here, and its frequency operation feeds
//! the identification data it queries through the derivation and cache
//! logic below. The ARM implementation reads a counter-timer register
//! pair that exposes both count and frequency directly, so it has no
//! logic of its own beyond the two register reads.

use vstd::prelude::*;
use crate::frequency::{
    spec_derived_frequency, spec_frequency_op, FrequencyCache, QEMU_DEFAULT_FREQUENCY,
};
use crate::identification::{
    reports_invariant_tsc, reports_tsc, CounterSupportError, CpuidRegisters,
    INVARIANT_TSC_SUPPORT_BIT, TSC_SUPPORT_BIT,
};

verus! {

/// The capability contract every platform implementation satisfies.
pub trait ArchFunctionality {
    /// Value of the counter.
    fn cpu_count() -> u64;

    /// Value in Hz of how often the counter increments.
    fn cpu_count_frequency() -> u64;

    /// Value the performance counter starts with when it rolls over.
    fn cpu_count_start() -> (start: u64)
        default_ensures
            start == 0,
    {
        0
    }

    /// Value that the performance counter ends with before it rolls over.
    fn cpu_count_end() -> (end: u64)
        default_ensures
            end == u64::MAX,
    {
        u64::MAX
    }
}

/// The x86 implementation's decision logic. The platform layer queries
/// the identification leaves and issues the counter instruction; the
/// checks and the derivation on the returned register values stand here.
pub struct X64;

impl X64 {
    /// The capability validation that precedes the first counter read
    /// when it is enabled: the counter must be present and must have the
    /// invariant (constant-rate) property, else all downstream timing
    /// would silently be wrong. Checked in that order, so a processor
    /// with no counter at all reports `TscUnsupported`.
    pub fn validate_counter_support(
        leaf1: &CpuidRegisters,
        extended_leaf: &CpuidRegisters,
    ) -> (support: Result<(), CounterSupportError>)
        ensures
            support is Ok <==> reports_tsc(*leaf1) && reports_invariant_tsc(*extended_leaf),
            support == Err::<(), _>(CounterSupportError::TscUnsupported) <==> !reports_tsc(
                *leaf1,
            ),
            support == Err::<(), _>(CounterSupportError::InvariantTscUnsupported) <==> (
            reports_tsc(*leaf1) && !reports_invariant_tsc(*extended_leaf)),
    {
        if leaf1.edx & TSC_SUPPORT_BIT != TSC_SUPPORT_BIT {
            Err(CounterSupportError::TscUnsupported)
        } else if extended_leaf.edx & INVARIANT_TSC_SUPPORT_BIT != INVARIANT_TSC_SUPPORT_BIT {
            Err(CounterSupportError::InvariantTscUnsupported)
        } else {
            Ok(())
        }
    }

    /// The pure derivation on the ratio leaf's register values: the
    /// fixed fallback when the crystal-clock field (ecx) is zero, else
    /// the crystal clock scaled by numerator (ebx) over denominator
    /// (eax), with the integer division performed before the
    /// multiplication.
    pub fn derive_frequency(leaf15: &CpuidRegisters) -> (frequency: u64)
        requires
            leaf15.ecx != 0 ==> leaf15.eax != 0,
        ensures
            frequency == spec_derived_frequency(*leaf15),
    {
        if leaf15.ecx == 0 {
            QEMU_DEFAULT_FREQUENCY
        } else {
            let ratio: u32 = leaf15.ebx / leaf15.eax;
            proof {
                let c = leaf15.ecx as int;
                let q = ratio as int;
                assert(c * q < 0x10000000000000000) by (nonlinear_arith)
                    requires
                        0 <= c < 0x100000000,
                        0 <= q < 0x100000000,
                ;
            }
            (leaf15.ecx as u64) * (ratio as u64)
        }
    }

    /// The slow path of the frequency operation: derive the frequency
    /// from freshly queried identification data and publish it in the
    /// cache slot. A concurrent writer can only have published the same
    /// derived value, since the derivation is pure.
    pub fn derive_and_cache_frequency(
        cache: &mut FrequencyCache,
        leaf15: &CpuidRegisters,
    ) -> (frequency: u64)
        requires
            leaf15.ecx != 0 ==> leaf15.eax != 0,
            old(cache).spec_freq() == 0 || old(cache).spec_freq() == spec_derived_frequency(
                *leaf15,
            ),
        ensures
            frequency == spec_derived_frequency(*leaf15),
            final(cache).spec_freq() == frequency,
    {
        let frequency = Self::derive_frequency(leaf15);
        cache.publish(frequency);
        frequency
    }

    /// One whole frequency operation: return a set slot's content
    /// without looking at the identification data, else derive the
    /// frequency from it and cache the result. Either way the slot
    /// afterwards holds exactly the returned value.
    pub fn cpu_count_frequency(
        cache: &mut FrequencyCache,
        leaf15: &CpuidRegisters,
    ) -> (frequency: u64)
        requires
            (old(cache).spec_freq() == 0 && leaf15.ecx != 0) ==> leaf15.eax != 0,
        ensures
            frequency == spec_frequency_op(old(cache).spec_freq(), *leaf15),
            final(cache).spec_freq() == frequency,
    {
        match cache.lookup() {
            Some(cached) => cached,
            None => Self::derive_and_cache_frequency(cache, leaf15),
        }
    }
}

} // verus!
