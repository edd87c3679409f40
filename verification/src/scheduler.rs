//! Decides when the next window of audio is due and which samples it spans.

use crate::error::WhisperError;
use crate::timing::{lemma_samples_in_monotonic, samples_for, samples_in};
use vstd::prelude::*;
use vstd::string::StringExecFns;

verus! {

/// The shortest tail of a closed stream that is still worth a window.
pub const DEFAULT_MIN_TAIL_MS: u32 = 500;

/// Sample offsets of one window: `start` up to, not including, `end`.
#[derive(Clone, Copy, Debug, PartialEq, Eq, Structural)]
pub struct WindowRange {
    pub start: u64,
    pub end: u64,
}

/// The sliding-window policy of one session together with its watermark.
///
/// All readiness decisions are taken in samples. The hop is the window's
/// sample count less the overlap's sample count.
#[derive(Clone, Copy, Debug, PartialEq, Eq, Structural)]
pub struct WindowScheduler {
    /// Samples per second.
    pub sample_rate: u32,
    /// Length of one window.
    pub window_duration_ms: u32,
    /// Length of the stretch that two successive windows share.
    pub overlap_duration_ms: u32,
    /// Samples already claimed by a dispatched window.
    pub last_processed_mark: u64,
}

impl WindowScheduler {
    /// The rate is positive and the overlap is shorter than the window.
    pub open spec fn wf(self) -> bool {
        &&& self.sample_rate > 0
        &&& self.overlap_duration_ms < self.window_duration_ms
    }

    /// Samples in one window.
    pub open spec fn window_samples(self) -> nat {
        samples_in(self.sample_rate, self.window_duration_ms)
    }

    /// Samples that two successive windows share.
    pub open spec fn overlap_samples(self) -> nat {
        samples_in(self.sample_rate, self.overlap_duration_ms)
    }

    /// Samples by which the window moves on between two dispatches.
    pub open spec fn hop_samples(self) -> int {
        self.window_samples() - self.overlap_samples()
    }

    /// A window is due: a whole window is buffered, and at least one hop of
    /// it lies beyond the watermark.
    pub open spec fn is_ready(self, occupancy: u64) -> bool {
        &&& occupancy >= self.window_samples()
        &&& occupancy - self.last_processed_mark >= self.hop_samples()
    }

    /// The window that is due at `occupancy`, if any: the latest
    /// `window_samples` samples.
    pub open spec fn spec_poll(self, occupancy: u64) -> Option<WindowRange> {
        if self.is_ready(occupancy) {
            Some(WindowRange { start: (occupancy - self.window_samples()) as u64, end: occupancy })
        } else {
            None
        }
    }

    /// The watermark after a dispatch at `occupancy`: the occupancy less the
    /// overlap, and never below zero.
    pub open spec fn mark_after(self, occupancy: u64) -> u64 {
        if occupancy >= self.overlap_samples() {
            (occupancy - self.overlap_samples()) as u64
        } else {
            0
        }
    }

    /// The scheduler after a dispatch at `occupancy`.
    pub open spec fn spec_advance(self, occupancy: u64) -> WindowScheduler {
        WindowScheduler { last_processed_mark: self.mark_after(occupancy), ..self }
    }

    /// Samples that lie beyond the watermark.
    pub open spec fn unclaimed(self, occupancy: u64) -> int {
        if occupancy >= self.last_processed_mark {
            occupancy - self.last_processed_mark
        } else {
            0
        }
    }

    /// The last window of a stream that has ended at `occupancy`: the
    /// window that is due, if one is; otherwise the samples beyond the
    /// watermark, provided they last longer than `min_tail_ms`.
    pub open spec fn spec_poll_final(self, occupancy: u64, min_tail_ms: u32) -> Option<
        WindowRange,
    > {
        if self.is_ready(occupancy) {
            self.spec_poll(occupancy)
        } else if self.unclaimed(occupancy) > samples_in(self.sample_rate, min_tail_ms) {
            Some(
                WindowRange {
                    start: (occupancy - self.unclaimed(occupancy)) as u64,
                    end: occupancy,
                },
            )
        } else {
            None
        }
    }

    /// The scheduler after the last window of a stream that ended at
    /// `occupancy`: everything is claimed.
    pub open spec fn spec_finish(self, occupancy: u64) -> WindowScheduler {
        WindowScheduler { last_processed_mark: occupancy, ..self }
    }

    /// A scheduler with its watermark at zero.
    ///
    /// Fails with `InvalidConfiguration` exactly when the rate is zero or
    /// the overlap is not shorter than the window.
    pub fn new(sample_rate: u32, window_duration_ms: u32, overlap_duration_ms: u32) -> (result:
        Result<Self, WhisperError>)
        ensures
            result is Ok <==> (sample_rate > 0 && overlap_duration_ms < window_duration_ms),
            result is Err ==> result->Err_0 is InvalidConfiguration,
            result is Ok ==> result->Ok_0 == (WindowScheduler {
                sample_rate,
                window_duration_ms,
                overlap_duration_ms,
                last_processed_mark: 0,
            }) && result->Ok_0.wf(),
    {
        if sample_rate == 0 {
            return Err(
                WhisperError::InvalidConfiguration(
                    String::from_str("Sample rate must be positive"),
                ),
            );
        }
        if overlap_duration_ms >= window_duration_ms {
            return Err(
                WhisperError::InvalidConfiguration(
                    String::from_str("Overlap duration must be less than window duration"),
                ),
            );
        }
        Ok(
            WindowScheduler {
                sample_rate,
                window_duration_ms,
                overlap_duration_ms,
                last_processed_mark: 0,
            },
        )
    }

    /// Samples in one window.
    pub fn window_sample_count(&self) -> (count: u64)
        ensures
            count == self.window_samples(),
    {
        samples_for(self.sample_rate, self.window_duration_ms)
    }

    /// Samples that two successive windows share.
    pub fn overlap_sample_count(&self) -> (count: u64)
        ensures
            count == self.overlap_samples(),
    {
        samples_for(self.sample_rate, self.overlap_duration_ms)
    }

    /// Samples by which the window moves on between two dispatches.
    pub fn hop_sample_count(&self) -> (count: u64)
        requires
            self.wf(),
        ensures
            count == self.hop_samples(),
    {
        proof {
            lemma_samples_in_monotonic(
                self.sample_rate,
                self.overlap_duration_ms,
                self.window_duration_ms,
            );
        }
        samples_for(self.sample_rate, self.window_duration_ms) - samples_for(
            self.sample_rate,
            self.overlap_duration_ms,
        )
    }

    /// The window that is due at `occupancy` samples, or `None` while none
    /// is due. The watermark stays where it is.
    pub fn poll(&self, occupancy: u64) -> (window: Option<WindowRange>)
        requires
            self.wf(),
        ensures
            window == self.spec_poll(occupancy),
            window is Some ==> window->Some_0.end == occupancy && window->Some_0.end
                - window->Some_0.start == self.window_samples(),
    {
        let window: u64 = self.window_sample_count();
        let hop: u64 = self.hop_sample_count();
        if occupancy < window {
            return None;
        }
        if occupancy >= self.last_processed_mark && occupancy - self.last_processed_mark >= hop {
            Some(WindowRange { start: occupancy - window, end: occupancy })
        } else {
            None
        }
    }

    /// Commits the dispatch of the window polled at `occupancy`: the
    /// watermark moves to the occupancy less the overlap.
    pub fn advance(&mut self, occupancy: u64)
        ensures
            *final(self) == old(self).spec_advance(occupancy),
            old(self).wf() ==> final(self).wf(),
    {
        let overlap: u64 = self.overlap_sample_count();
        self.last_processed_mark = if occupancy >= overlap {
            occupancy - overlap
        } else {
            0
        };
    }

    /// The last window of a stream that has ended at `occupancy` samples:
    /// the window that is due, if one is; otherwise the samples beyond
    /// the watermark, provided they last longer than `min_tail_ms`. A
    /// shorter tail is dropped. The watermark stays where it is.
    pub fn poll_final(&self, occupancy: u64, min_tail_ms: u32) -> (window: Option<WindowRange>)
        requires
            self.wf(),
        ensures
            window == self.spec_poll_final(occupancy, min_tail_ms),
            window is Some ==> window->Some_0.start <= window->Some_0.end == occupancy,
    {
        match self.poll(occupancy) {
            Some(window) => Some(window),
            None => {
                if occupancy < self.last_processed_mark {
                    return None;
                }
                let tail: u64 = occupancy - self.last_processed_mark;
                if tail > samples_for(self.sample_rate, min_tail_ms) {
                    Some(WindowRange { start: self.last_processed_mark, end: occupancy })
                } else {
                    None
                }
            },
        }
    }

    /// Commits the last window of a stream that ended at `occupancy`:
    /// every sample counts as claimed.
    pub fn finish(&mut self, occupancy: u64)
        ensures
            *final(self) == old(self).spec_finish(occupancy),
            old(self).wf() ==> final(self).wf(),
    {
        self.last_processed_mark = occupancy;
    }

    /// The last window of a stream is taken once: after it is committed,
    /// no further window is due at the same occupancy, provided the hop
    /// holds at least one sample.
    pub proof fn lemma_final_window_once(self, occupancy: u64, min_tail_ms: u32)
        requires
            self.wf(),
            self.hop_samples() > 0,
        ensures
            self.spec_finish(occupancy).spec_poll_final(occupancy, min_tail_ms) is None,
    {
    }

    /// The overlap is never longer than the window, so the hop is positive
    /// or zero, and the three counts add up.
    pub proof fn lemma_counts(self)
        requires
            self.wf(),
        ensures
            self.overlap_samples() <= self.window_samples(),
            self.hop_samples() >= 0,
            self.hop_samples() + self.overlap_samples() == self.window_samples(),
    {
        lemma_samples_in_monotonic(
            self.sample_rate,
            self.overlap_duration_ms,
            self.window_duration_ms,
        );
    }

    /// No window is dispatched twice: where a window was due at some
    /// occupancy and its dispatch was committed, none is due at the same
    /// occupancy, provided the overlap is shorter than the hop.
    pub proof fn lemma_no_duplicate_dispatch(self, occupancy: u64)
        requires
            self.wf(),
            self.spec_poll(occupancy) is Some,
            self.overlap_samples() < self.hop_samples(),
        ensures
            self.spec_advance(occupancy).spec_poll(occupancy) is None,
    {
        self.lemma_counts();
    }

    /// Where the overlap is not shorter than the hop, a window is due again
    /// right after a committed dispatch at the same occupancy.
    pub proof fn lemma_duplicate_dispatch_with_long_overlap(self, occupancy: u64)
        requires
            self.wf(),
            self.spec_poll(occupancy) is Some,
            self.overlap_samples() >= self.hop_samples(),
        ensures
            self.spec_advance(occupancy).spec_poll(occupancy) == self.spec_poll(occupancy),
    {
        self.lemma_counts();
    }

    /// A committed dispatch of a due window never moves the watermark
    /// back, provided the overlap is not longer than the hop.
    pub proof fn lemma_mark_monotonic(self, occupancy: u64)
        requires
            self.wf(),
            self.spec_poll(occupancy) is Some,
            self.overlap_samples() <= self.hop_samples(),
        ensures
            self.spec_advance(occupancy).last_processed_mark >= self.last_processed_mark,
    {
        self.lemma_counts();
    }

    /// The watermark follows the occupancy: of two committed dispatches,
    /// the one at the greater occupancy leaves the greater watermark. A
    /// buffer never shrinks, so the watermark never moves back from one
    /// dispatch to the next.
    pub proof fn lemma_mark_follows_occupancy(self, earlier: u64, later: u64)
        requires
            earlier <= later,
        ensures
            self.spec_advance(earlier).last_processed_mark <= self.spec_advance(
                earlier,
            ).spec_advance(later).last_processed_mark,
            self.spec_advance(earlier).spec_advance(later) == self.spec_advance(later),
    {
    }

    /// After a committed dispatch, the next window is due as soon as the
    /// fresh audio reaches the hop less the overlap. Taken after exactly
    /// one hop of fresh audio, it starts one hop after the window before
    /// it and shares exactly the overlap with it.
    pub proof fn lemma_next_window_one_hop_later(self, occupancy: u64, later: u64)
        requires
            self.wf(),
            self.spec_poll(occupancy) is Some,
            later >= occupancy,
        ensures
            self.spec_advance(occupancy).spec_poll(later) is Some <==> later - occupancy
                >= self.hop_samples() - self.overlap_samples(),
            later - occupancy == self.hop_samples() ==> {
                let first = self.spec_poll(occupancy)->Some_0;
                let second = self.spec_advance(occupancy).spec_poll(later);
                &&& second is Some
                &&& second->Some_0.start == first.start + self.hop_samples()
                &&& first.end - second->Some_0.start == self.overlap_samples()
            },
    {
        self.lemma_counts();
    }

    /// Two successive windows, the second taken one hop of fresh samples
    /// after the first, share the overlap sample for sample: the tail of
    /// the first is the head of the second.
    pub proof fn lemma_overlap_shared<T>(self, held: Seq<T>, fresh: Seq<T>)
        requires
            self.wf(),
            held.len() <= u64::MAX,
            held.len() + fresh.len() <= u64::MAX,
            self.spec_poll(held.len() as u64) is Some,
            fresh.len() == self.hop_samples(),
        ensures
            ({
                let first = self.spec_poll(held.len() as u64)->Some_0;
                let after = self.spec_advance(held.len() as u64);
                let second = after.spec_poll((held.len() + fresh.len()) as u64);
                let first_window = held.subrange(first.start as int, first.end as int);
                &&& second is Some
                &&& {
                    let second_window = (held + fresh).subrange(
                        second->Some_0.start as int,
                        second->Some_0.end as int,
                    );
                    &&& first_window.len() == self.window_samples()
                    &&& second_window.len() == self.window_samples()
                    &&& first_window.skip(self.hop_samples()) == second_window.take(
                        self.overlap_samples() as int,
                    )
                }
            }),
    {
        self.lemma_counts();
        let first = self.spec_poll(held.len() as u64)->Some_0;
        let after = self.spec_advance(held.len() as u64);
        let later = (held.len() + fresh.len()) as u64;
        self.lemma_next_window_one_hop_later(held.len() as u64, later);
        let second = after.spec_poll(later)->Some_0;
        let first_window = held.subrange(first.start as int, first.end as int);
        let second_window = (held + fresh).subrange(second.start as int, second.end as int);
        assert(first_window.skip(self.hop_samples()) =~= second_window.take(
            self.overlap_samples() as int,
        ));
    }
}

} // verus!
