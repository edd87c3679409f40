//! Running aggregates of a session's inference attempts.

use vstd::prelude::*;

verus! {

/// Addition that stops at `u64::MAX`.
pub open spec fn sat_add(a: u64, b: u64) -> u64 {
    if a + b > u64::MAX {
        u64::MAX
    } else {
        (a + b) as u64
    }
}

/// Computes [`sat_add`].
pub fn saturating_sum(a: u64, b: u64) -> (sum: u64)
    ensures
        sum == sat_add(a, b),
{
    if a > u64::MAX - b {
        u64::MAX
    } else {
        a + b
    }
}

/// Counters kept for one session.
///
/// The mean latency is held exactly, as the sum of all recorded latencies
/// over the number of recorded windows. Every counter stops at `u64::MAX`.
#[derive(Clone, Copy, Debug, PartialEq, Eq, Structural)]
pub struct ProcessingStats {
    /// Inference attempts, successful or not.
    pub total_processed_windows: u64,
    /// Attempts that returned text.
    pub successful_transcriptions: u64,
    /// Sum of the latencies of all attempts, in milliseconds.
    pub total_processing_time_ms: u64,
    /// Length of one window, against which latencies are measured.
    pub window_duration_ms: u32,
    /// Samples that left the buffer before they were read.
    pub buffer_overflows: u64,
}

impl ProcessingStats {
    /// The counters after one more attempt.
    pub open spec fn spec_record(self, latency_ms: u64, succeeded: bool) -> ProcessingStats {
        ProcessingStats {
            total_processed_windows: sat_add(self.total_processed_windows, 1),
            successful_transcriptions: if succeeded {
                sat_add(self.successful_transcriptions, 1)
            } else {
                self.successful_transcriptions
            },
            total_processing_time_ms: sat_add(self.total_processing_time_ms, latency_ms),
            ..self
        }
    }

    /// The counters after `evicted` more samples were lost.
    pub open spec fn spec_record_overflow(self, evicted: u64) -> ProcessingStats {
        ProcessingStats { buffer_overflows: sat_add(self.buffer_overflows, evicted), ..self }
    }

    /// Mean latency in whole milliseconds; zero before the first attempt.
    pub open spec fn spec_average_processing_time_ms(self) -> nat {
        if self.total_processed_windows == 0 {
            0
        } else {
            self.total_processing_time_ms as nat / self.total_processed_windows as nat
        }
    }

    /// Window duration over mean latency, in thousandths, stopping at
    /// `u64::MAX`; zero while the summed latency is zero.
    pub open spec fn spec_real_time_factor_permille(self) -> nat {
        if self.total_processing_time_ms == 0 {
            0
        } else {
            let exact = (self.window_duration_ms as nat * 1000 * self.total_processed_windows as nat)
                / self.total_processing_time_ms as nat;
            if exact > u64::MAX {
                u64::MAX as nat
            } else {
                exact
            }
        }
    }

    /// Successful attempts over all attempts, in whole percent, stopping
    /// at `u64::MAX`; zero before the first attempt.
    pub open spec fn spec_success_rate_percent(self) -> nat {
        if self.total_processed_windows == 0 {
            0
        } else {
            let exact = (self.successful_transcriptions as nat * 100)
                / self.total_processed_windows as nat;
            if exact > u64::MAX {
                u64::MAX as nat
            } else {
                exact
            }
        }
    }

    /// All counters at zero.
    pub open spec fn spec_new(window_duration_ms: u32) -> ProcessingStats {
        ProcessingStats {
            total_processed_windows: 0,
            successful_transcriptions: 0,
            total_processing_time_ms: 0,
            window_duration_ms,
            buffer_overflows: 0,
        }
    }

    /// All counters at zero.
    pub fn new(window_duration_ms: u32) -> (stats: Self)
        ensures
            stats == Self::spec_new(window_duration_ms),
    {
        ProcessingStats {
            total_processed_windows: 0,
            successful_transcriptions: 0,
            total_processing_time_ms: 0,
            window_duration_ms,
            buffer_overflows: 0,
        }
    }

    /// Counts one attempt that took `latency_ms`, and one success where
    /// `succeeded`.
    pub fn record(&mut self, latency_ms: u64, succeeded: bool)
        ensures
            *final(self) == old(self).spec_record(latency_ms, succeeded),
    {
        self.total_processed_windows = saturating_sum(self.total_processed_windows, 1);
        if succeeded {
            self.successful_transcriptions = saturating_sum(self.successful_transcriptions, 1);
        }
        self.total_processing_time_ms = saturating_sum(self.total_processing_time_ms, latency_ms);
    }

    /// Counts `evicted` samples as lost.
    pub fn record_overflow(&mut self, evicted: u64)
        ensures
            *final(self) == old(self).spec_record_overflow(evicted),
    {
        self.buffer_overflows = saturating_sum(self.buffer_overflows, evicted);
    }

    /// A copy of the counters as they stand.
    pub fn snapshot(&self) -> (copy: ProcessingStats)
        ensures
            copy == *self,
    {
        *self
    }

    /// Mean latency in whole milliseconds.
    pub fn average_processing_time_ms(&self) -> (mean: u64)
        ensures
            mean == self.spec_average_processing_time_ms(),
    {
        if self.total_processed_windows == 0 {
            0
        } else {
            self.total_processing_time_ms / self.total_processed_windows
        }
    }

    /// Window duration over mean latency, in thousandths.
    pub fn real_time_factor_permille(&self) -> (factor: u64)
        ensures
            factor == self.spec_real_time_factor_permille(),
    {
        if self.total_processing_time_ms == 0 {
            return 0;
        }
        let scaled: u128 = self.window_duration_ms as u128 * 1000;
        assert(scaled * self.total_processed_windows as u128 <= 0xFFFF_FFFF * 1000
            * 0xFFFF_FFFF_FFFF_FFFF) by (nonlinear_arith)
            requires
                scaled <= 0xFFFF_FFFF * 1000,
                self.total_processed_windows as u128 <= 0xFFFF_FFFF_FFFF_FFFF,
        ;
        let exact: u128 = (scaled * self.total_processed_windows as u128)
            / self.total_processing_time_ms as u128;
        if exact > u64::MAX as u128 {
            u64::MAX
        } else {
            exact as u64
        }
    }

    /// Successful attempts over all attempts, in whole percent.
    pub fn success_rate_percent(&self) -> (rate: u64)
        ensures
            rate == self.spec_success_rate_percent(),
    {
        if self.total_processed_windows == 0 {
            return 0;
        }
        let exact: u128 = (self.successful_transcriptions as u128 * 100)
            / self.total_processed_windows as u128;
        if exact > u64::MAX as u128 {
            u64::MAX
        } else {
            exact as u64
        }
    }

    /// The mean is updated incrementally: while no counter has reached its
    /// limit, the new mean times the new count is the old mean times the
    /// old count plus the new latency, and the count grows by one.
    pub proof fn lemma_incremental_mean(self, latency_ms: u64, succeeded: bool)
        requires
            self.total_processed_windows < u64::MAX,
            self.total_processing_time_ms + latency_ms <= u64::MAX,
        ensures
            self.spec_record(latency_ms, succeeded).total_processed_windows
                == self.total_processed_windows + 1,
            self.spec_record(latency_ms, succeeded).total_processing_time_ms
                == self.total_processing_time_ms + latency_ms,
            self.spec_record(latency_ms, succeeded).spec_average_processing_time_ms() == (
            self.total_processing_time_ms + latency_ms) / (self.total_processed_windows + 1),
    {
    }

    /// Successes never outnumber attempts, once that holds.
    pub proof fn lemma_record_keeps_successes_bounded(self, latency_ms: u64, succeeded: bool)
        requires
            self.successful_transcriptions <= self.total_processed_windows,
        ensures
            self.spec_record(latency_ms, succeeded).successful_transcriptions <= self.spec_record(
                latency_ms,
                succeeded,
            ).total_processed_windows,
    {
    }
}

} // verus!
