//! Frame timing: the time each of the last frames took, their average, and
//! the number of frames so far. Times are whole nanoseconds.

use vstd::prelude::*;
use std::time::{Duration, Instant};

verus! {

/// How many frame times are kept for the average.
pub const MAX_DELTA_COUNT: usize = 200;

/// The longest time that is recorded for one frame: the longest a `Duration`
/// can be, in nanoseconds. A longer time is recorded as this one.
pub const MAX_FRAME_NANOS: u128 = 18_446_744_073_709_551_615_999_999_999;

/// The time recorded for the frame before the first.
pub const FIRST_FRAME_NANOS: u128 = 1_000_000;

/// `std::time::Instant`, a reading of the monotonic clock. Nothing is known
/// of what an instant holds; it is only carried from one clock call to the
/// next.
#[verifier::external_type_specification]
#[verifier::external_body]
pub struct ExInstant(std::time::Instant);

/// Reads the clock with `Instant::now`. Nothing is claimed of the instant
/// that comes back.
#[verifier::external_body]
fn instant_now() -> (now: Instant) {
    Instant::now()
}

/// `Instant::duration_since`: the time from `earlier` to `later`, which std
/// gives as zero where `earlier` is the later one. Nothing is claimed of the
/// duration that comes back.
#[verifier::external_body]
fn instant_duration_since(later: &Instant, earlier: &Instant) -> (elapsed: Duration) {
    later.duration_since(*earlier)
}

/// `Duration::as_nanos`: the whole duration in nanoseconds. Nothing is
/// claimed of the number that comes back.
#[verifier::external_body]
fn duration_as_nanos(duration: &Duration) -> (nanos: u128) {
    duration.as_nanos()
}

/// Sum of the frame times.
pub open spec fn total(frames: Seq<u128>) -> nat
    decreases frames.len(),
{
    if frames.len() == 0 {
        0
    } else {
        total(frames.drop_last()) + frames.last() as nat
    }
}

/// Frames per second at the given average frame time, rounded to the nearest
/// whole number, halves upwards. A frame time of zero gives the largest
/// number there is.
pub open spec fn fps_of(average_nanos: nat) -> nat {
    if average_nanos == 0 {
        u32::MAX as nat
    } else {
        (2_000_000_000 + average_nanos) / (2 * average_nanos)
    }
}

/// The time that is recorded for a frame that took `elapsed` nanoseconds.
pub open spec fn clamped(elapsed: u128) -> u128 {
    if elapsed > MAX_FRAME_NANOS {
        MAX_FRAME_NANOS
    } else {
        elapsed
    }
}

/// Mathematical model of the frame timer.
pub struct TimeModel {
    /// The frame times that are kept, oldest first.
    pub frames: Seq<u128>,
    /// Frames so far.
    pub ticks: nat,
}

impl TimeModel {
    /// There is always a frame time to report, never more than are kept, and
    /// none longer than is recorded.
    pub open spec fn wf(self) -> bool {
        &&& 0 < self.frames.len() <= MAX_DELTA_COUNT
        &&& forall|i: int| 0 <= i < self.frames.len() ==> #[trigger] self.frames[i] <= MAX_FRAME_NANOS
    }

    pub open spec fn initial() -> TimeModel {
        TimeModel { frames: seq![FIRST_FRAME_NANOS], ticks: 0 }
    }

    /// The timer after a frame that took `elapsed` nanoseconds: the time is
    /// appended, and the oldest dropped once more than are kept are there.
    pub open spec fn recorded(self, elapsed: u128) -> TimeModel {
        let frames = self.frames.push(clamped(elapsed));
        TimeModel {
            frames: if frames.len() > MAX_DELTA_COUNT {
                frames.subrange(1, frames.len() as int)
            } else {
                frames
            },
            ticks: self.ticks + 1,
        }
    }

    /// The time of the last frame.
    pub open spec fn delta(self) -> u128 {
        self.frames.last()
    }

    /// The average of the frame times that are kept, rounded down.
    pub open spec fn average(self) -> nat {
        total(self.frames) / self.frames.len()
    }
}

/// A sum of frame times is at most as many times the longest.
pub proof fn lemma_total_bound(frames: Seq<u128>, bound: nat)
    requires
        forall|i: int| 0 <= i < frames.len() ==> #[trigger] frames[i] <= bound,
    ensures
        total(frames) <= frames.len() * bound,
    decreases frames.len(),
{
    if frames.len() > 0 {
        lemma_total_bound(frames.drop_last(), bound);
        assert(total(frames) <= (frames.len() - 1) * bound + bound);
        assert((frames.len() - 1) * bound + bound == frames.len() * bound) by (nonlinear_arith);
    }
}

/// Frame timer.
#[derive(Debug)]
pub struct TimeContext {
    init_instant: Instant,
    last_instant: Instant,
    frame_durations: Vec<u128>,
    frame_count: usize,
}

impl View for TimeContext {
    type V = TimeModel;

    closed spec fn view(&self) -> TimeModel {
        TimeModel { frames: self.frame_durations@, ticks: self.frame_count as nat }
    }
}

impl TimeContext {
    #[verifier::type_invariant]
    pub open spec fn inv(self) -> bool {
        self@.wf()
    }

    /// Starts the timer at the present instant.
    pub fn new() -> (timer: TimeContext)
        ensures
            timer@ == TimeModel::initial(),
    {
        let init_instant = instant_now();
        let mut frame_durations: Vec<u128> = Vec::new();
        frame_durations.push(FIRST_FRAME_NANOS);
        let timer = TimeContext {
            init_instant,
            last_instant: init_instant,
            frame_durations,
            frame_count: 0,
        };
        assert(timer@.frames =~= seq![FIRST_FRAME_NANOS]);
        timer
    }

    /// Nanoseconds since the last frame was recorded, by the clock: the time
    /// that would be recorded for the frame if it ended now.
    pub fn raw_delta(&self) -> (nanos: u128)
        ensures
            exists|reading: u128| nanos == self@.recorded(reading).delta(),
    {
        let now = instant_now();
        let elapsed = instant_duration_since(&now, &self.last_instant);
        let reading = duration_as_nanos(&elapsed);
        proof {
            lemma_recorded_delta(self@, reading);
        }
        clamp_nanos(reading)
    }

    /// Nanoseconds since the timer was started, by the clock, on the scale of
    /// the times that the timer records.
    pub fn time_since_start(&self) -> (nanos: u128)
        ensures
            exists|reading: u128| nanos == clamped(reading),
    {
        let now = instant_now();
        let elapsed = instant_duration_since(&now, &self.init_instant);
        clamp_nanos(duration_as_nanos(&elapsed))
    }

    /// The time of the last frame, in nanoseconds.
    pub fn delta(&self) -> (nanos: u128)
        ensures
            nanos == self@.delta(),
    {
        proof {
            use_type_invariant(self);
        }
        self.frame_durations[self.frame_durations.len() - 1]
    }

    /// The average of the frame times that are kept, in nanoseconds, rounded
    /// down.
    pub fn average_delta(&self) -> (nanos: u128)
        ensures
            nanos == self@.average(),
    {
        proof {
            use_type_invariant(self);
        }
        let count: usize = self.frame_durations.len();
        let mut sum: u128 = 0;
        let mut i: usize = 0;
        while i < count
            invariant
                count == self.frame_durations@.len(),
                i <= count <= MAX_DELTA_COUNT,
                forall|j: int|
                    0 <= j < count ==> #[trigger] self.frame_durations@[j] <= MAX_FRAME_NANOS,
                sum == total(self.frame_durations@.take(i as int)),
                sum <= i * MAX_FRAME_NANOS,
            decreases count - i,
        {
            proof {
                let prefix = self.frame_durations@.take(i as int + 1);
                assert(prefix.drop_last() =~= self.frame_durations@.take(i as int));
                assert(prefix.last() == self.frame_durations@[i as int]);
            }
            sum = sum + self.frame_durations[i];
            i += 1;
        }
        proof {
            assert(self.frame_durations@.take(count as int) =~= self.frame_durations@);
        }
        sum / (count as u128)
    }

    /// Frames per second at the average frame time, rounded to the nearest
    /// whole number.
    pub fn average_fps(&self) -> (fps: u32)
        ensures
            fps == fps_of(self@.average()),
    {
        proof {
            use_type_invariant(self);
            lemma_total_bound(self.frame_durations@, MAX_FRAME_NANOS as nat);
        }
        let average: u128 = self.average_delta();
        if average == 0 {
            return u32::MAX;
        }
        assert(average <= MAX_DELTA_COUNT * MAX_FRAME_NANOS);
        let fps: u128 = (2_000_000_000 + average) / (2 * average);
        assert(fps <= 1_000_000_000) by (nonlinear_arith)
            requires
                average >= 1,
                fps == (2_000_000_000 + average) / (2 * average),
        ;
        fps as u32
    }

    /// Frames so far.
    pub fn ticks(&self) -> (count: usize)
        ensures
            count == self@.ticks,
    {
        self.frame_count
    }

    /// The frame times that follow `frames` once `elapsed` is recorded.
    fn window(frames: &Vec<u128>, elapsed: u128) -> (next: Vec<u128>)
        requires
            0 < frames@.len() <= MAX_DELTA_COUNT,
            elapsed <= MAX_FRAME_NANOS,
        ensures
            next@ == if frames@.len() + 1 > MAX_DELTA_COUNT {
                frames@.push(elapsed).subrange(1, frames@.len() as int + 1)
            } else {
                frames@.push(elapsed)
            },
    {
        let start: usize = if frames.len() + 1 > MAX_DELTA_COUNT {
            1
        } else {
            0
        };
        let mut next: Vec<u128> = Vec::new();
        let mut i: usize = start;
        while i < frames.len()
            invariant
                start <= i <= frames@.len(),
                next@ == frames@.subrange(start as int, i as int),
            decreases frames@.len() - i,
        {
            next.push(frames[i]);
            proof {
                assert(next@ =~= frames@.subrange(start as int, i as int + 1));
            }
            i += 1;
        }
        next.push(elapsed);
        proof {
            assert(next@ =~= frames@.push(elapsed).subrange(start as int, frames@.len() as int + 1));
            assert(frames@.push(elapsed).subrange(0, frames@.len() as int + 1) =~= frames@.push(elapsed));
        }
        next
    }

    /// Records a frame that ended at `now` and took `elapsed` nanoseconds.
    pub fn record(&mut self, now: Instant, elapsed: u128)
        requires
            old(self)@.ticks < usize::MAX,
        ensures
            final(self)@ == old(self)@.recorded(elapsed),
    {
        proof {
            use_type_invariant(&*self);
        }
        let kept: u128 = if elapsed > MAX_FRAME_NANOS {
            MAX_FRAME_NANOS
        } else {
            elapsed
        };
        let next = TimeContext::window(&self.frame_durations, kept);
        self.frame_durations = next;
        self.last_instant = now;
        self.frame_count = self.frame_count + 1;
    }

    /// Ends a frame: records the time since the last one ended, by the clock.
    pub fn tick(&mut self)
        requires
            old(self)@.ticks < usize::MAX,
        ensures
            exists|elapsed: u128| final(self)@ == old(self)@.recorded(elapsed),
    {
        let now = instant_now();
        let elapsed = instant_duration_since(&now, &self.last_instant);
        let nanos = duration_as_nanos(&elapsed);
        self.record(now, nanos);
    }
}

/// Brings a reading of the clock, in nanoseconds, to the scale of the times
/// that the timer records: a reading beyond the longest time is that time.
pub fn clamp_nanos(reading: u128) -> (nanos: u128)
    ensures
        nanos == clamped(reading),
{
    if reading > MAX_FRAME_NANOS {
        MAX_FRAME_NANOS
    } else {
        reading
    }
}

/// Once a frame is recorded, the time of the last frame is the time that was
/// recorded for it.
pub proof fn lemma_recorded_delta(timer: TimeModel, elapsed: u128)
    ensures
        timer.recorded(elapsed).delta() == clamped(elapsed),
        timer.recorded(elapsed).delta() <= MAX_FRAME_NANOS,
{
    let frames = timer.frames.push(clamped(elapsed));
    assert(frames.last() == clamped(elapsed));
    if frames.len() > MAX_DELTA_COUNT {
        assert(frames.subrange(1, frames.len() as int).last() == frames.last());
    }
}

} // verus!
