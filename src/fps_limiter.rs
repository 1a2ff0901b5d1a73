//! Frame-time sampling over a short ring of recent frames.

use std::time::Duration;
use std::time::Instant;
use vstd::prelude::*;

verus! {

/// Number of frame times kept for the moving average.
pub const SAMPLE_COUNT: usize = 5;

/// Declares `std::time::Instant`, a reading of the monotonic clock, as an
/// opaque type.
#[verifier::external_type_specification]
#[verifier::external_body]
pub struct ExInstant(Instant);

/// Relies on `Instant::now`: a reading of the monotonic clock. Nothing is
/// promised of the value.
pub assume_specification[ Instant::now ]() -> Instant;

/// Relies on `Instant::elapsed`: the time passed since the reading. Nothing
/// is promised of the value.
pub assume_specification[ Instant::elapsed ](i: &Instant) -> Duration;

/// Relies on `Duration::subsec_micros`: the fractional part of a duration in
/// whole microseconds, which std documents as always less than one million.
pub assume_specification[ Duration::subsec_micros ](d: &Duration) -> (r: u32)
    ensures
        r < 1_000_000,
;

/// The sum of a sequence of frame times.
pub open spec fn sum_of(s: Seq<u32>) -> int
    decreases s.len(),
{
    if s.len() == 0 {
        0
    } else {
        sum_of(s.drop_last()) + s.last()
    }
}

/// Keeps the last `SAMPLE_COUNT` frame times, in microseconds, in a ring.
pub struct FPSLimiter {
    counter: Instant,
    samples: [u32; SAMPLE_COUNT],
    current_frame: usize,
    delta_frame: u32,
}

impl FPSLimiter {
    /// The recorded frame times, by ring position.
    pub closed spec fn samples_view(&self) -> Seq<u32> {
        self.samples@
    }

    /// The ring position that the next frame time is written to.
    pub closed spec fn next_slot(&self) -> nat {
        self.current_frame as nat
    }

    /// The most recent frame time.
    pub closed spec fn last_delta(&self) -> u32 {
        self.delta_frame
    }

    pub closed spec fn wf(&self) -> bool {
        &&& self.samples@.len() == SAMPLE_COUNT
        &&& self.current_frame < SAMPLE_COUNT
    }

    /// A limiter whose clock starts now, with every sample zero.
    pub fn new() -> (r: FPSLimiter)
        ensures
            r.wf(),
            r.samples_view() == Seq::new(SAMPLE_COUNT as nat, |i: int| 0u32),
            r.next_slot() == 0,
            r.last_delta() == 0,
    {
        let r = FPSLimiter {
            counter: Instant::now(),
            samples: [0u32; SAMPLE_COUNT],
            current_frame: 0,
            delta_frame: 0,
        };
        assert(r.samples@ =~= Seq::new(SAMPLE_COUNT as nat, |i: int| 0u32));
        r
    }

    /// Records the time since the previous tick (its sub-second part, in
    /// microseconds) and restarts the clock.
    pub fn tick_frame(&mut self)
        requires
            old(self).wf(),
        ensures
            final(self).wf(),
            final(self).last_delta() < 1_000_000,
            final(self).samples_view() == old(self).samples_view().update(
                old(self).next_slot() as int,
                final(self).last_delta(),
            ),
            final(self).next_slot() == (old(self).next_slot() + 1) % (SAMPLE_COUNT as nat),
    {
        let time_elapsed = self.counter.elapsed();
        self.counter = Instant::now();
        let micros = time_elapsed.subsec_micros();
        self.record_frame_time(micros);
    }

    /// Stores one frame time in the ring and moves to the next position.
    pub fn record_frame_time(&mut self, micros: u32)
        requires
            old(self).wf(),
        ensures
            final(self).wf(),
            final(self).last_delta() == micros,
            final(self).samples_view() == old(self).samples_view().update(
                old(self).next_slot() as int,
                micros,
            ),
            final(self).next_slot() == (old(self).next_slot() + 1) % (SAMPLE_COUNT as nat),
    {
        self.delta_frame = micros;
        self.samples[self.current_frame] = micros;
        self.current_frame = (self.current_frame + 1) % SAMPLE_COUNT;
    }

    /// The sum of the recorded frame times.
    pub fn sample_sum(&self) -> (r: u64)
        requires
            self.wf(),
        ensures
            r == sum_of(self.samples_view()),
    {
        let mut sum: u64 = 0;
        let mut i: usize = 0;
        while i < SAMPLE_COUNT
            invariant
                self.wf(),
                i <= SAMPLE_COUNT,
                sum == sum_of(self.samples@.subrange(0, i as int)),
                sum <= i * 0xFFFF_FFFF,
            decreases SAMPLE_COUNT - i,
        {
            assert(self.samples@.subrange(0, i + 1).drop_last() =~= self.samples@.subrange(0, i as int));
            sum = sum + self.samples[i] as u64;
            i = i + 1;
        }
        assert(self.samples@.subrange(0, SAMPLE_COUNT as int) =~= self.samples@);
        sum
    }

    /// The most recent frame time, in microseconds.
    pub fn delta_micros(&self) -> (r: u32)
        ensures
            r == self.last_delta(),
    {
        self.delta_frame
    }
}

} // verus!
