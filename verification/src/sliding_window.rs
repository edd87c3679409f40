//! Cutting a recording of known length into windows that follow one
//! another at a fixed step.

use crate::error::WhisperError;
use crate::scheduler::WindowRange;
use crate::timing::{lemma_samples_in_monotonic, samples_for, samples_in};
use vstd::prelude::*;
use vstd::string::StringExecFns;

verus! {

/// The number of whole windows of `window` samples that fit into `total`
/// samples when each starts `step` samples after the one before.
pub open spec fn full_window_count(total: nat, window: nat, step: nat) -> nat {
    if window > total || step == 0 {
        0
    } else {
        ((total - window) / (step as int) + 1) as nat
    }
}

/// The windows over a recording of `total` samples.
///
/// A recording no longer than one window is one window. Otherwise the
/// whole windows come first, each `step` samples after the one before.
/// Where more than half a step of samples lies beyond the start that the
/// next whole window would have had, the latest `window` samples follow
/// as one more window.
pub open spec fn spec_plan(total: nat, window: nat, step: nat) -> Seq<WindowRange> {
    if window >= total {
        seq![WindowRange { start: 0, end: total as u64 }]
    } else {
        let count = full_window_count(total, window, step);
        let whole = Seq::new(
            count,
            |k: int| WindowRange { start: (k * step) as u64, end: (k * step + window) as u64 },
        );
        let position = count * step;
        if position < total && total - position > step / 2 {
            whole.push(WindowRange { start: (total - window) as u64, end: total as u64 })
        } else {
            whole
        }
    }
}

/// The settings can be planned with: positive durations, a step no
/// longer than the window and holding at least one sample, a positive
/// rate.
pub open spec fn is_valid_plan(window_size_ms: u32, step_size_ms: u32, sample_rate: i32) -> bool {
    &&& window_size_ms > 0
    &&& step_size_ms > 0
    &&& step_size_ms <= window_size_ms
    &&& sample_rate > 0
    &&& samples_in(sample_rate as u32, step_size_ms) > 0
}

proof fn lemma_count_reached(total: int, window: int, step: int, k: int)
    requires
        0 < step,
        0 <= window <= total,
        1 <= k,
        (k - 1) * step + window <= total,
        k * step + window > total,
    ensures
        (total - window) / step + 1 == k,
{
    let d = total - window;
    assert((k - 1) * step <= d < k * step);
    assert(d / step == k - 1) by (nonlinear_arith)
        requires
            0 < step,
            (k - 1) * step <= d < k * step,
    ;
}

/// Plans the windows over a recording of `total_samples` samples.
///
/// Fails with `ProcessingError` exactly when the settings cannot be
/// planned with.
pub fn plan_sliding_windows(
    total_samples: usize,
    window_size_ms: u32,
    step_size_ms: u32,
    sample_rate: i32,
) -> (result: Result<Vec<WindowRange>, WhisperError>)
    ensures
        result is Ok <==> is_valid_plan(window_size_ms, step_size_ms, sample_rate),
        result is Err ==> result->Err_0 is ProcessingError,
        result is Ok ==> result->Ok_0@ == spec_plan(
            total_samples as nat,
            samples_in(sample_rate as u32, window_size_ms),
            samples_in(sample_rate as u32, step_size_ms),
        ),
{
    if window_size_ms == 0 || step_size_ms == 0 || step_size_ms > window_size_ms {
        return Err(WhisperError::ProcessingError(String::from_str("Invalid window or step size")));
    }
    if sample_rate <= 0 {
        return Err(WhisperError::ProcessingError(String::from_str("Invalid sample rate")));
    }
    let rate: u32 = sample_rate as u32;
    let window: u64 = samples_for(rate, window_size_ms);
    let step: u64 = samples_for(rate, step_size_ms);
    if step == 0 {
        return Err(
            WhisperError::ProcessingError(String::from_str("Step is shorter than one sample")),
        );
    }
    proof {
        lemma_samples_in_monotonic(rate, step_size_ms, window_size_ms);
    }
    let total: u64 = total_samples as u64;
    let mut windows: Vec<WindowRange> = Vec::new();
    if window >= total {
        windows.push(WindowRange { start: 0, end: total });
        assert(windows@ =~= spec_plan(total as nat, window as nat, step as nat));
        return Ok(windows);
    }
    let mut position: u64 = 0;
    let ghost mut k: int = 0;
    while position <= total - window
        invariant
            0 < step <= window < total,
            0 <= k,
            position == k * step,
            k >= 1 ==> (k - 1) * step + window <= total,
            position <= total,
            windows@ == Seq::new(
                k as nat,
                |i: int| WindowRange { start: (i * step) as u64, end: (i * step + window) as u64 },
            ),
        decreases total - position,
    {
        windows.push(WindowRange { start: position, end: position + window });
        proof {
            assert((k + 1) * step == k * step + step) by (nonlinear_arith);
            assert(windows@ =~= Seq::new(
                (k + 1) as nat,
                |i: int| WindowRange { start: (i * step) as u64, end: (i * step + window) as u64 },
            ));
            k = k + 1;
        }
        position = position + step;
    }
    proof {
        assert(k >= 1);
        lemma_count_reached(total as int, window as int, step as int, k);
        assert(full_window_count(total as nat, window as nat, step as nat) == k);
    }
    if position < total && total - position > step / 2 {
        windows.push(WindowRange { start: total - window, end: total });
    }
    assert(windows@ =~= spec_plan(total as nat, window as nat, step as nat));
    Ok(windows)
}

} // verus!
