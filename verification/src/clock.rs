//! The simulation clock: virtual time that stops while the clock is paused
//! and that is read no more often than once per sample time.
//!
//! Instants are nanoseconds on the caller's monotonic clock, handed in with
//! each call. Waiting and scaling the elapsed time by the configured time
//! scale are the caller's work.

use vstd::prelude::*;

verus! {

/// The state of a clock, as plain values.
#[derive(Clone, Copy)]
pub struct ClockView {
    /// The instant the virtual time counts from, moved forward by every pause.
    pub start: u64,
    /// The instant of the last pause.
    pub pause_time: u64,
    /// The instant of the last reading that was not held back.
    pub last_call: u64,
    pub is_pause: bool,
    /// The least time between two readings, in nanoseconds.
    pub sample_time: Option<u64>,
    /// The number of readings taken while running.
    pub call_count: usize,
}

/// What reading the clock gives.
#[derive(Debug, Clone, Copy, PartialEq, Eq, Structural)]
pub enum ClockReading {
    /// The clock is paused; its virtual time reads as zero.
    Paused,
    /// The sample time has not passed since the last reading: the caller
    /// waits this many nanoseconds and then calls `woke`.
    Wait(u64),
    /// The virtual time, in nanoseconds, before scaling.
    Elapsed(u64),
}

/// The latest instant a clock has recorded.
pub open spec fn latest(v: ClockView) -> u64 {
    if v.is_pause {
        v.pause_time
    } else {
        v.last_call
    }
}

/// The instants of a clock are ordered: the start comes first, and a pause
/// comes after the last reading.
pub open spec fn clock_ordered(v: ClockView) -> bool {
    &&& v.start <= v.last_call
    &&& v.is_pause ==> v.last_call <= v.pause_time
}

/// A clock started at `now`, running.
pub open spec fn started(v: ClockView, now: u64) -> ClockView {
    ClockView { start: now, pause_time: now, last_call: now, is_pause: false, ..v }
}

/// A clock paused at `now`; a paused clock stays as it is.
pub open spec fn paused(v: ClockView, now: u64) -> ClockView {
    if v.is_pause {
        v
    } else {
        ClockView { pause_time: now, is_pause: true, ..v }
    }
}

/// A clock resumed at `now`: the time spent paused is added to its start and
/// to its last reading. A running clock stays as it is.
pub open spec fn resumed(v: ClockView, now: u64) -> ClockView {
    if v.is_pause {
        ClockView {
            start: (v.start + (now - v.pause_time)) as u64,
            last_call: (v.last_call + (now - v.pause_time)) as u64,
            is_pause: false,
            ..v
        }
    } else {
        v
    }
}

/// Whether a reading at `now` is held back by the sample time.
pub open spec fn held_back(v: ClockView, now: u64) -> bool {
    match v.sample_time {
        Some(s) => now - v.last_call < s,
        None => false,
    }
}

/// What reading the clock at `now` gives.
pub open spec fn reading(v: ClockView, now: u64) -> ClockReading {
    if v.is_pause {
        ClockReading::Paused
    } else if held_back(v, now) {
        ClockReading::Wait((v.sample_time.unwrap() - (now - v.last_call)) as u64)
    } else {
        ClockReading::Elapsed((now - v.start) as u64)
    }
}

/// The clock after a reading at `now`.
pub open spec fn after_reading(v: ClockView, now: u64) -> ClockView {
    if v.is_pause {
        v
    } else if held_back(v, now) {
        ClockView { call_count: (v.call_count + 1) as usize, ..v }
    } else {
        ClockView { call_count: (v.call_count + 1) as usize, last_call: now, ..v }
    }
}

/// The virtual time and simulation pacing of the core.
pub struct Clock {
    actual_start_time: u64,
    pause_time: u64,
    last_call: u64,
    is_pause: bool,
    sample_time: Option<u64>,
    call_count: usize,
}

impl View for Clock {
    type V = ClockView;

    closed spec fn view(&self) -> ClockView {
        ClockView {
            start: self.actual_start_time,
            pause_time: self.pause_time,
            last_call: self.last_call,
            is_pause: self.is_pause,
            sample_time: self.sample_time,
            call_count: self.call_count,
        }
    }
}

impl Clock {
    #[verifier::type_invariant]
    spec fn ordered(self) -> bool {
        clock_ordered(self@)
    }

    /// A running clock created at `now`, reading no more often than once per
    /// `sample_time` nanoseconds when one is given.
    pub fn new(sample_time: Option<u64>, now: u64) -> (c: Self)
        ensures
            c@ == (ClockView {
                start: now,
                pause_time: now,
                last_call: now,
                is_pause: false,
                sample_time,
                call_count: 0,
            }),
    {
        Clock {
            actual_start_time: now,
            pause_time: now,
            last_call: now,
            is_pause: false,
            sample_time,
            call_count: 0,
        }
    }

    /// Starts the clock at `now`.
    pub fn start(&mut self, now: u64)
        ensures
            final(self)@ == started(old(self)@, now),
    {
        *self = Clock {
            actual_start_time: now,
            pause_time: now,
            last_call: now,
            is_pause: false,
            sample_time: self.sample_time,
            call_count: self.call_count,
        };
    }

    /// Starts the clock afresh at `now`, with a new sample time.
    pub fn reset(&mut self, sample_time: Option<u64>, now: u64)
        ensures
            final(self)@ == (ClockView { sample_time, ..started(old(self)@, now) }),
    {
        *self = Clock {
            actual_start_time: now,
            pause_time: now,
            last_call: now,
            is_pause: false,
            sample_time,
            call_count: self.call_count,
        };
    }

    /// Pauses the clock at `now`.
    pub fn pause(&mut self, now: u64)
        requires
            now >= latest(old(self)@),
        ensures
            final(self)@ == paused(old(self)@, now),
    {
        proof {
            use_type_invariant(&*self);
        }
        if !self.is_pause {
            *self = Clock { pause_time: now, is_pause: true, ..*self };
        }
    }

    /// Resumes the clock at `now`.
    pub fn resume(&mut self, now: u64)
        requires
            now >= latest(old(self)@),
        ensures
            final(self)@ == resumed(old(self)@, now),
    {
        proof {
            use_type_invariant(&*self);
        }
        if self.is_pause {
            let pause_duration = now - self.pause_time;
            *self = Clock {
                actual_start_time: self.actual_start_time + pause_duration,
                pause_time: self.pause_time,
                last_call: self.last_call + pause_duration,
                is_pause: false,
                sample_time: self.sample_time,
                call_count: self.call_count,
            };
        }
    }

    /// Reads the clock at `now`.
    pub fn now(&mut self, now: u64) -> (r: ClockReading)
        requires
            now >= latest(old(self)@),
            old(self)@.call_count < usize::MAX,
        ensures
            r == reading(old(self)@, now),
            final(self)@ == after_reading(old(self)@, now),
    {
        proof {
            use_type_invariant(&*self);
        }
        if self.is_pause {
            return ClockReading::Paused;
        }
        self.call_count = self.call_count + 1;
        match self.sample_time {
            Some(sample_time) => {
                let time_since_last_call = now - self.last_call;
                if time_since_last_call < sample_time {
                    return ClockReading::Wait(sample_time - time_since_last_call);
                }
            },
            None => {},
        }
        self.last_call = now;
        ClockReading::Elapsed(now - self.actual_start_time)
    }

    /// Finishes a reading that had to wait, woken at `now`: the reading is
    /// taken then, and its virtual time is returned, that of the instant of
    /// waking, which may lie past the end of the sample time.
    pub fn woke(&mut self, now: u64) -> (r: u64)
        requires
            !old(self)@.is_pause,
            now >= latest(old(self)@),
        ensures
            r == now - old(self)@.start,
            final(self)@ == (ClockView { last_call: now, ..old(self)@ }),
    {
        proof {
            use_type_invariant(&*self);
        }
        self.last_call = now;
        now - self.actual_start_time
    }

    /// The number of readings taken while running.
    pub fn call_count(&self) -> (r: usize)
        ensures
            r == self@.call_count,
    {
        self.call_count
    }

    /// Whether the clock is paused.
    pub fn is_paused(&self) -> (r: bool)
        ensures
            r == self@.is_pause,
    {
        self.is_pause
    }
}

/// Time spent paused does not count: a clock started at `t0`, paused at
/// `t1` and resumed at `t2` reads, at `t3`, the time from `t0` to `t3` less
/// the pause.
pub proof fn paused_time_is_not_counted(v: ClockView, t0: u64, t1: u64, t2: u64, t3: u64)
    requires
        v.sample_time is None,
        t0 <= t1 <= t2 <= t3,
    ensures
        reading(resumed(paused(started(v, t0), t1), t2), t3) == ClockReading::Elapsed(
            (t3 - t0 - (t2 - t1)) as u64,
        ),
{
}

/// A paused clock reads as paused and stays paused, whatever the time, until
/// it is resumed; resuming a running clock changes nothing.
pub proof fn pause_freezes(v: ClockView, t1: u64, t2: u64)
    ensures
        reading(paused(v, t1), t2) == ClockReading::Paused,
        after_reading(paused(v, t1), t2) == paused(v, t1),
        paused(paused(v, t1), t2) == paused(v, t1),
        !v.is_pause ==> resumed(v, t2) == v,
{
}

/// After a reading that was not held back, taken at `t`, every reading
/// before `t` plus the sample time is held back until then.
pub proof fn readings_are_spaced(v: ClockView, s: u64, t: u64, later: u64)
    requires
        v.sample_time == Some(s),
        reading(v, t) is Elapsed,
        t <= later,
        later - t < s,
    ensures
        reading(after_reading(v, t), later) == ClockReading::Wait((s - (later - t)) as u64),
{
}

/// Virtual time never runs backwards: the time read at `t1` is at most the
/// time read at a later `t3`, also when the clock was paused at `t1` and
/// resumed at `t2` in between.
pub proof fn virtual_time_is_monotone(v: ClockView, t1: u64, t2: u64, t3: u64)
    requires
        clock_ordered(v),
        !v.is_pause,
        latest(v) <= t1 <= t2 <= t3,
    ensures
        t1 - v.start <= t3 - v.start,
        t1 - v.start <= t3 - resumed(paused(v, t1), t2).start,
        clock_ordered(resumed(paused(v, t1), t2)),
{
}

/// Resuming moves the last reading forward by the time spent paused, as it
/// does the start; the pause instant and the sample time stay.
pub proof fn resume_shifts_the_last_reading(v: ClockView, now: u64)
    requires
        v.is_pause,
        clock_ordered(v),
        now >= v.pause_time,
    ensures
        resumed(v, now).last_call == v.last_call + (now - v.pause_time),
        resumed(v, now).start == v.start + (now - v.pause_time),
        resumed(v, now).last_call - resumed(v, now).start == v.last_call - v.start,
        !resumed(v, now).is_pause,
        resumed(v, now).sample_time == v.sample_time,
{
}

/// Time spent paused never counts toward the spacing of readings: after a
/// reading at `t`, a pause from `t1` to `t2` and a reading at `t3`, where
/// the running time between the readings, `(t1 - t) + (t3 - t2)`, is less
/// than the sample time `s`, the second reading is held back for the rest of
/// the sample time.
pub proof fn pauses_do_not_count_toward_spacing(v: ClockView, s: u64, t: u64, t1: u64, t2: u64, t3: u64)
    requires
        clock_ordered(v),
        !v.is_pause,
        v.sample_time == Some(s),
        latest(v) <= t <= t1 <= t2 <= t3,
        reading(v, t) is Elapsed,
        (t1 - t) + (t3 - t2) < s,
    ensures
        reading(resumed(paused(after_reading(v, t), t1), t2), t3) == ClockReading::Wait(
            (s - ((t1 - t) + (t3 - t2))) as u64,
        ),
{
}

/// Once the sample time has run since the last reading, counting only
/// running time, a reading is taken: it gives the running time since the
/// start.
pub proof fn readings_resume_after_the_sample_time(v: ClockView, s: u64, t: u64, t1: u64, t2: u64, t3: u64)
    requires
        clock_ordered(v),
        !v.is_pause,
        v.sample_time == Some(s),
        latest(v) <= t <= t1 <= t2 <= t3,
        reading(v, t) is Elapsed,
        (t1 - t) + (t3 - t2) >= s,
    ensures
        reading(resumed(paused(after_reading(v, t), t1), t2), t3) == ClockReading::Elapsed(
            (t3 - v.start - (t2 - t1)) as u64,
        ),
{
}

/// A reading of a running clock counts one more reading; one that is not
/// held back becomes the last reading, while one that is held back leaves
/// the last reading where it was. Reading a paused clock changes nothing.
pub proof fn readings_are_counted_and_recorded(v: ClockView, now: u64)
    requires
        v.call_count < usize::MAX,
    ensures
        !v.is_pause ==> after_reading(v, now).call_count == v.call_count + 1,
        !v.is_pause && reading(v, now) is Elapsed ==> after_reading(v, now).last_call == now,
        !v.is_pause && reading(v, now) is Wait ==> after_reading(v, now).last_call == v.last_call,
        v.is_pause ==> after_reading(v, now) == v,
        after_reading(v, now).start == v.start,
        after_reading(v, now).sample_time == v.sample_time,
{
}

/// Right after a start at `t`, a clock without sample time reads the time
/// since `t`.
pub proof fn a_started_clock_counts_from_its_start(v: ClockView, t: u64, now: u64)
    requires
        v.sample_time is None,
        t <= now,
    ensures
        reading(started(v, t), now) == ClockReading::Elapsed((now - t) as u64),
{
}

} // verus!
