//! Conversions between durations in milliseconds and counts of samples.

use vstd::prelude::*;

verus! {

/// The number of whole samples that `duration_ms` milliseconds hold at
/// `sample_rate` samples per second.
pub open spec fn samples_in(sample_rate: u32, duration_ms: u32) -> nat {
    (sample_rate as nat * duration_ms as nat) / 1000
}

/// The number of whole milliseconds that `samples` samples last at
/// `sample_rate` samples per second; zero where the rate is zero.
pub open spec fn duration_ms_of(samples: nat, sample_rate: u32) -> nat {
    if sample_rate == 0 {
        0
    } else {
        (samples * 1000) / (sample_rate as nat)
    }
}

/// Computes [`samples_in`].
pub fn samples_for(sample_rate: u32, duration_ms: u32) -> (count: u64)
    ensures
        count == samples_in(sample_rate, duration_ms),
{
    assert(sample_rate as u64 * duration_ms as u64 <= 0xFFFF_FFFF * 0xFFFF_FFFF) by (nonlinear_arith)
        requires
            sample_rate as u64 <= 0xFFFF_FFFF,
            duration_ms as u64 <= 0xFFFF_FFFF,
    ;
    (sample_rate as u64 * duration_ms as u64) / 1000
}

/// A longer duration never holds fewer samples.
pub proof fn lemma_samples_in_monotonic(sample_rate: u32, shorter_ms: u32, longer_ms: u32)
    requires
        shorter_ms <= longer_ms,
    ensures
        samples_in(sample_rate, shorter_ms) <= samples_in(sample_rate, longer_ms),
{
    assert(sample_rate as nat * shorter_ms as nat <= sample_rate as nat * longer_ms as nat)
        by (nonlinear_arith)
        requires
            shorter_ms <= longer_ms,
    ;
}

} // verus!
