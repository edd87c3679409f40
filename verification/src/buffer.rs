//! A bounded, ordered store of audio samples that forgets the oldest
//! samples once it is full.

use crate::error::WhisperError;
use crate::timing::{duration_ms_of, samples_for, samples_in};
use std::collections::VecDeque;
use vstd::prelude::*;
use vstd::string::StringExecFns;

verus! {

/// The last `count` items of `s`, or all of `s` where it holds fewer.
pub open spec fn keep_latest<T>(s: Seq<T>, count: nat) -> Seq<T> {
    if s.len() <= count {
        s
    } else {
        s.subrange(s.len() - count, s.len() as int)
    }
}

/// Keeping the latest `count` items keeps no more than `count`, drops
/// only from the front, and drops nothing where all items fit.
pub proof fn lemma_keep_latest<T>(s: Seq<T>, count: nat)
    ensures
        keep_latest(s, count).len() == if s.len() <= count {
            s.len()
        } else {
            count
        },
        keep_latest(s, count).len() <= count,
        keep_latest(s, count) == s.skip(s.len() - keep_latest(s, count).len()),
        s.len() <= count ==> keep_latest(s, count) == s,
{
    assert(keep_latest(s, count) =~= s.skip(s.len() - keep_latest(s, count).len()));
}

/// What an append left behind.
#[derive(Clone, Copy, Debug, PartialEq, Eq, Structural)]
pub struct OccupancyStatus {
    /// Samples held after the append.
    pub samples_count: usize,
    /// Whole milliseconds of audio held after the append.
    pub current_duration_ms: u64,
    /// Samples that had to leave, oldest first, to make room.
    pub evicted: usize,
}

/// Mono samples of type `T` at a fixed sample rate, at most `capacity` of
/// them, oldest first.
pub struct AudioRingBuffer<T> {
    samples: VecDeque<T>,
    sample_rate: u32,
    max_buffer_duration_ms: u32,
    capacity: usize,
}

impl<T: Copy> View for AudioRingBuffer<T> {
    type V = Seq<T>;

    closed spec fn view(&self) -> Seq<T> {
        self.samples@
    }
}

impl<T: Copy> AudioRingBuffer<T> {
    /// Samples per second.
    pub closed spec fn spec_sample_rate(&self) -> u32 {
        self.sample_rate
    }

    /// The longest stretch of audio the buffer keeps, in milliseconds.
    pub closed spec fn spec_max_buffer_duration_ms(&self) -> u32 {
        self.max_buffer_duration_ms
    }

    /// The largest number of samples the buffer keeps.
    pub closed spec fn spec_capacity(&self) -> usize {
        self.capacity
    }

    /// The buffer never holds more than its capacity, and the capacity is
    /// what rate and maximal duration give.
    pub closed spec fn wf(&self) -> bool {
        &&& self.sample_rate > 0
        &&& self.max_buffer_duration_ms > 0
        &&& self.capacity == samples_in(self.sample_rate, self.max_buffer_duration_ms)
        &&& self.samples@.len() <= self.capacity
    }

    /// A well-formed buffer is within its capacity and has a positive rate.
    pub proof fn lemma_wf_bounds(&self)
        requires
            self.wf(),
        ensures
            self@.len() <= self.spec_capacity(),
            self.spec_sample_rate() > 0,
            self.spec_max_buffer_duration_ms() > 0,
            self.spec_capacity() == samples_in(
                self.spec_sample_rate(),
                self.spec_max_buffer_duration_ms(),
            ),
    {
    }

    /// An empty buffer for `max_buffer_duration_ms` of audio at `sample_rate`.
    ///
    /// Fails with `InvalidConfiguration` exactly when the rate or the
    /// duration is zero, or the capacity does not fit the machine's word.
    pub fn new(sample_rate: u32, max_buffer_duration_ms: u32) -> (result: Result<
        Self,
        WhisperError,
    >)
        ensures
            result is Ok <==> (sample_rate > 0 && max_buffer_duration_ms > 0 && samples_in(
                sample_rate,
                max_buffer_duration_ms,
            ) <= usize::MAX),
            result is Err ==> result->Err_0 is InvalidConfiguration,
            result is Ok ==> {
                let buffer = result->Ok_0;
                &&& buffer.wf()
                &&& buffer@ == Seq::<T>::empty()
                &&& buffer.spec_sample_rate() == sample_rate
                &&& buffer.spec_max_buffer_duration_ms() == max_buffer_duration_ms
                &&& buffer.spec_capacity() == samples_in(sample_rate, max_buffer_duration_ms)
            },
    {
        if sample_rate == 0 {
            return Err(
                WhisperError::InvalidConfiguration(
                    String::from_str("Sample rate must be positive"),
                ),
            );
        }
        if max_buffer_duration_ms == 0 {
            return Err(
                WhisperError::InvalidConfiguration(
                    String::from_str("Maximum buffer duration must be positive"),
                ),
            );
        }
        let wanted: u64 = samples_for(sample_rate, max_buffer_duration_ms);
        if wanted > usize::MAX as u64 {
            return Err(
                WhisperError::InvalidConfiguration(
                    String::from_str("Buffer capacity does not fit in memory"),
                ),
            );
        }
        Ok(
            AudioRingBuffer {
                samples: VecDeque::new(),
                sample_rate,
                max_buffer_duration_ms,
                capacity: wanted as usize,
            },
        )
    }

    /// Samples per second.
    pub fn sample_rate(&self) -> (rate: u32)
        ensures
            rate == self.spec_sample_rate(),
    {
        self.sample_rate
    }

    /// The longest stretch of audio the buffer keeps, in milliseconds.
    pub fn max_buffer_duration_ms(&self) -> (duration: u32)
        ensures
            duration == self.spec_max_buffer_duration_ms(),
    {
        self.max_buffer_duration_ms
    }

    /// The largest number of samples the buffer keeps.
    pub fn capacity(&self) -> (capacity: usize)
        ensures
            capacity == self.spec_capacity(),
    {
        self.capacity
    }

    /// The number of samples held.
    pub fn len(&self) -> (count: usize)
        ensures
            count == self@.len(),
    {
        self.samples.len()
    }

    /// Whole milliseconds of audio held: samples times 1000 over the rate.
    pub fn occupancy_duration_ms(&self) -> (duration: u64)
        requires
            self.wf(),
        ensures
            duration == duration_ms_of(self@.len(), self.spec_sample_rate()),
    {
        let count: usize = self.samples.len();
        proof {
            let r = self.sample_rate as nat;
            let m = self.max_buffer_duration_ms as nat;
            assert(((r * m) / 1000) * 1000 <= r * m) by (nonlinear_arith);
            assert(r * m <= 0xFFFF_FFFF * 0xFFFF_FFFF) by (nonlinear_arith)
                requires
                    r <= 0xFFFF_FFFF,
                    m <= 0xFFFF_FFFF,
            ;
            let n = count as nat;
            assert(n * 1000 <= ((r * m) / 1000) * 1000) by (nonlinear_arith)
                requires
                    n <= (r * m) / 1000,
            ;
        }
        (count as u64 * 1000) / (self.sample_rate as u64)
    }

    /// Whole percent of the capacity in use; 100 where the capacity is zero.
    pub fn usage_percent(&self) -> (percent: u64)
        requires
            self.wf(),
        ensures
            percent == spec_usage_percent(self@.len(), self.spec_capacity() as nat),
            percent <= 100,
    {
        if self.capacity == 0 {
            return 100;
        }
        let count: usize = self.samples.len();
        proof {
            let r = self.sample_rate as nat;
            let m = self.max_buffer_duration_ms as nat;
            let c = self.capacity as nat;
            assert(r * m <= 0xFFFF_FFFF * 0xFFFF_FFFF) by (nonlinear_arith)
                requires
                    r <= 0xFFFF_FFFF,
                    m <= 0xFFFF_FFFF,
            ;
            let n = count as nat;
            assert(n * 100 <= c * 100) by (nonlinear_arith)
                requires
                    n <= c,
            ;
            assert((n * 100) / c <= 100) by (nonlinear_arith)
                requires
                    n * 100 <= c * 100,
                    c > 0,
            ;
        }
        (count as u64 * 100) / (self.capacity as u64)
    }

    /// Pushes `samples` in order and lets the oldest samples go, one for
    /// each sample beyond the capacity. The status counts those that left.
    pub fn append(&mut self, samples: &[T]) -> (status: OccupancyStatus)
        requires
            old(self).wf(),
        ensures
            final(self).wf(),
            final(self).spec_sample_rate() == old(self).spec_sample_rate(),
            final(self).spec_max_buffer_duration_ms() == old(self).spec_max_buffer_duration_ms(),
            final(self).spec_capacity() == old(self).spec_capacity(),
            final(self)@ == keep_latest(old(self)@ + samples@, old(self).spec_capacity() as nat),
            final(self)@.len() <= old(self).spec_capacity(),
            status.samples_count == final(self)@.len(),
            status.current_duration_ms == duration_ms_of(
                final(self)@.len(),
                old(self).spec_sample_rate(),
            ),
            status.evicted == old(self)@.len() + samples@.len() - final(self)@.len(),
    {
        let total: usize = samples.len();
        let ghost before = self.samples@;
        let ghost capacity = self.capacity as nat;
        let mut evicted: usize = 0;
        if self.capacity == 0 {
            evicted = total;
            assert(self.samples@ =~= keep_latest(before + samples@, capacity));
        } else {
            let mut i: usize = 0;
            assert(before + samples@.take(0) =~= before);
            while i < total
                invariant
                    i <= total,
                    total == samples@.len(),
                    capacity == self.capacity,
                    capacity > 0,
                    self.sample_rate == old(self).sample_rate,
                    self.max_buffer_duration_ms == old(self).max_buffer_duration_ms,
                    self.capacity == old(self).capacity,
                    before == old(self).samples@,
                    before.len() <= capacity,
                    self.samples@ == keep_latest(before + samples@.take(i as int), capacity),
                    evicted == before.len() + i - self.samples@.len(),
                decreases total - i,
            {
                let ghost joined = before + samples@.take(i as int);
                let ghost held = self.samples@;
                if self.samples.len() == self.capacity {
                    let _ = self.samples.pop_front();
                    evicted = evicted + 1;
                }
                self.samples.push_back(samples[i]);
                proof {
                    let next = before + samples@.take(i as int + 1);
                    assert(next =~= joined.push(samples@[i as int]));
                    assert(self.samples@ =~= keep_latest(next, capacity));
                }
                i = i + 1;
            }
            assert(samples@.take(total as int) =~= samples@);
        }
        let count: usize = self.samples.len();
        let current_duration_ms: u64 = self.occupancy_duration_ms();
        OccupancyStatus { samples_count: count, current_duration_ms, evicted }
    }

    /// A copy of the most recent `duration_ms` of audio, or of everything
    /// held where that is less. The buffer stays as it is.
    ///
    /// Fails with `InvalidParameter` exactly when `duration_ms` is zero.
    pub fn extract_latest_window(&self, duration_ms: u32) -> (result: Result<Vec<T>, WhisperError>)
        requires
            self.wf(),
        ensures
            result is Ok <==> duration_ms > 0,
            result is Err ==> result->Err_0 is InvalidParameter,
            result is Ok ==> result->Ok_0@ == keep_latest(
                self@,
                samples_in(self.spec_sample_rate(), duration_ms),
            ),
    {
        if duration_ms == 0 {
            return Err(
                WhisperError::InvalidParameter(String::from_str("Window duration must be positive")),
            );
        }
        let wanted: u64 = samples_for(self.sample_rate, duration_ms);
        let held: usize = self.samples.len();
        let start: usize = if wanted >= held as u64 {
            0
        } else {
            held - wanted as usize
        };
        let window = self.copy_range(start, held);
        assert(window@ =~= keep_latest(self@, samples_in(self.sample_rate, duration_ms)));
        Ok(window)
    }

    /// A copy of the samples at offsets `start` up to, not including, `end`.
    ///
    /// Fails with `InvalidParameter` exactly when the offsets do not lie in
    /// the buffer in this order.
    pub fn extract_range(&self, start: usize, end: usize) -> (result: Result<Vec<T>, WhisperError>)
        ensures
            result is Ok <==> start <= end <= self@.len(),
            result is Err ==> result->Err_0 is InvalidParameter,
            result is Ok ==> result->Ok_0@ == self@.subrange(start as int, end as int),
    {
        if start > end || end > self.samples.len() {
            return Err(
                WhisperError::InvalidParameter(String::from_str("Window range is outside the buffer")),
            );
        }
        Ok(self.copy_range(start, end))
    }

    /// A copy of the samples at offsets `start` up to, not including, `end`,
    /// for offsets known to lie in the buffer.
    pub fn copy_range(&self, start: usize, end: usize) -> (window: Vec<T>)
        requires
            start <= end <= self@.len(),
        ensures
            window@ == self@.subrange(start as int, end as int),
    {
        let mut window: Vec<T> = Vec::new();
        let mut i: usize = start;
        while i < end
            invariant
                start <= i <= end,
                end <= self.samples@.len(),
                window@ == self.samples@.subrange(start as int, i as int),
            decreases end - i,
        {
            window.push(self.samples[i]);
            assert(window@ =~= self.samples@.subrange(start as int, i as int + 1));
            i = i + 1;
        }
        window
    }
}

/// Whole percent that `held` is of `capacity`; 100 where `capacity` is zero.
pub open spec fn spec_usage_percent(held: nat, capacity: nat) -> nat {
    if capacity == 0 {
        100
    } else {
        (held * 100) / capacity
    }
}

} // verus!
