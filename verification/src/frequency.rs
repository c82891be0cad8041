//! Counter-frequency derivation and its process-wide memoization slot.
//!
//! The x86 frequency operation derives ticks-per-second from the
//! identification leaf that reports the ratio of the counter frequency
//! to a reference crystal clock, falls back to a fixed frequency when
//! that leaf is not populated, and memoizes the result: the derivation
//! is pure and deterministic for fixed hardware, so racing writers all
//! store the same value and the slot never changes once set.

use vstd::prelude::*;
use crate::identification::CpuidRegisters;

verus! {

/// Fallback frequency in Hz, used when the identification data does not
/// expose the crystal-clock frequency (observed under emulation, where
/// the standard emulated reference clock runs at this rate).
pub const QEMU_DEFAULT_FREQUENCY: u64 = 3579545;

/// The frequency that the ratio leaf (0x15) determines: the crystal-clock
/// frequency in Hz (ecx) scaled by the ratio numerator (ebx) over the
/// ratio denominator (eax), dividing before multiplying; or the fixed
/// fallback when the crystal-clock field is zero.
pub open spec fn spec_derived_frequency(leaf15: CpuidRegisters) -> u64 {
    if leaf15.ecx == 0 {
        QEMU_DEFAULT_FREQUENCY
    } else {
        (leaf15.ecx * (leaf15.ebx / leaf15.eax)) as u64
    }
}

/// What one whole frequency operation returns, given the cache slot's
/// current content and the identification data the slow path would read:
/// a set slot short-circuits the derivation, an unset one is filled from
/// the identification data. The slot afterwards holds exactly this value.
pub open spec fn spec_frequency_op(cached: u64, leaf15: CpuidRegisters) -> u64 {
    if cached != 0 {
        cached
    } else {
        spec_derived_frequency(leaf15)
    }
}

/// The process-wide memoization slot for the derived counter frequency.
///
/// The value zero is the sentinel for "not yet computed"; once a value is
/// stored the slot is never reset for the life of the process. The
/// platform layer keeps the slot in a process-wide atomic and loads and
/// stores it with relaxed ordering: no other memory needs to be published
/// alongside the value, and a momentarily stale zero only costs one
/// redundant recomputation of the same value.
pub struct FrequencyCache {
    value: u64,
}

impl FrequencyCache {
    /// The slot's content; zero means "not yet computed".
    pub closed spec fn spec_freq(self) -> u64 {
        self.value
    }

    /// A fresh, unset slot (the process-start state).
    pub fn new() -> (cache: Self)
        ensures
            cache.spec_freq() == 0,
    {
        FrequencyCache { value: 0 }
    }

    /// A slot holding a value loaded from the process-wide atomic.
    pub fn from_raw(raw: u64) -> (cache: Self)
        ensures
            cache.spec_freq() == raw,
    {
        FrequencyCache { value: raw }
    }

    /// The value to store back into the process-wide atomic.
    pub fn raw(&self) -> (raw: u64)
        ensures
            raw == self.spec_freq(),
    {
        self.value
    }

    /// The fast path of the frequency operation: a non-zero slot yields
    /// its value immediately and no identification query is needed.
    pub fn lookup(&self) -> (found: Option<u64>)
        ensures
            found == if self.spec_freq() == 0 {
                Option::<u64>::None
            } else {
                Option::Some(self.spec_freq())
            },
    {
        if self.value != 0 {
            Some(self.value)
        } else {
            None
        }
    }

    /// Store a computed frequency. The derivation is deterministic for
    /// fixed hardware, so every writer racing on the slot stores the same
    /// value: a set slot is only ever overwritten with its own content.
    pub fn publish(&mut self, frequency: u64)
        requires
            old(self).spec_freq() == 0 || old(self).spec_freq() == frequency,
        ensures
            final(self).spec_freq() == frequency,
    {
        self.value = frequency;
    }
}

/// Idempotence law: two consecutive frequency operations on the same
/// hardware return the identical value — the first operation leaves its
/// own result in the slot, and the operation returns a set slot's content
/// unchanged. Moreover, once the first operation returned a non-zero
/// value, the second one does not depend on identification data at all:
/// it is a pure cache hit and performs no new identification query.
pub proof fn lemma_frequency_idempotent(cached: u64, leaf15: CpuidRegisters)
    ensures
        spec_frequency_op(spec_frequency_op(cached, leaf15), leaf15) == spec_frequency_op(
            cached,
            leaf15,
        ),
        spec_frequency_op(cached, leaf15) != 0 ==> forall|later: CpuidRegisters|
            #[trigger] spec_frequency_op(spec_frequency_op(cached, leaf15), later)
                == spec_frequency_op(cached, leaf15),
{
}

/// Write-once law: once the slot holds a non-zero value, a frequency
/// operation returns that value and leaves the slot unchanged, whatever
/// identification data a racing derivation might read.
pub proof fn lemma_cache_write_once(cached: u64, leaf15: CpuidRegisters)
    requires
        cached != 0,
    ensures
        spec_frequency_op(cached, leaf15) == cached,
{
}

} // verus!
