use perf_timer::{ArchFunctionality, CounterSupportError, CpuidRegisters, X64};

struct FixedCounter;

impl ArchFunctionality for FixedCounter {
    fn cpu_count() -> u64 {
        12345
    }

    fn cpu_count_frequency() -> u64 {
        1_000_000
    }
}

#[test]
fn default_counter_start_is_zero() {
    assert_eq!(FixedCounter::cpu_count_start(), 0);
}

#[test]
fn default_counter_end_is_u64_max() {
    assert_eq!(FixedCounter::cpu_count_end(), u64::MAX);
}

fn leaf_with_edx(edx: u32) -> CpuidRegisters {
    CpuidRegisters { eax: 0, ebx: 0, ecx: 0, edx }
}

#[test]
fn validation_passes_when_both_bits_present() {
    // A realistic leaf 1 edx with many features including bit 4 (TSC),
    // and an extended leaf with bit 8 (invariant TSC).
    let leaf1 = leaf_with_edx(0xBFEB_FBFF);
    let extended = leaf_with_edx(0x0000_0100);
    assert_eq!(X64::validate_counter_support(&leaf1, &extended), Ok(()));
}

#[test]
fn validation_fails_without_counter_support() {
    // Bit 4 of leaf 1's edx absent: the counter read must not happen.
    let leaf1 = leaf_with_edx(0xBFEB_FBEF);
    let extended = leaf_with_edx(0x0000_0100);
    assert_eq!(
        X64::validate_counter_support(&leaf1, &extended),
        Err(CounterSupportError::TscUnsupported)
    );
}

#[test]
fn validation_fails_without_invariant_property() {
    let leaf1 = leaf_with_edx(0x0000_0010);
    let extended = leaf_with_edx(0x0000_0000);
    assert_eq!(
        X64::validate_counter_support(&leaf1, &extended),
        Err(CounterSupportError::InvariantTscUnsupported)
    );
}

#[test]
fn missing_counter_is_reported_before_missing_invariance() {
    // With both capabilities absent, the absent counter is reported first.
    let leaf1 = leaf_with_edx(0);
    let extended = leaf_with_edx(0);
    assert_eq!(
        X64::validate_counter_support(&leaf1, &extended),
        Err(CounterSupportError::TscUnsupported)
    );
}
