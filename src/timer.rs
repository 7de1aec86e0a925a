//! A countdown timer that can repeat, driven by elapsed time in nanoseconds.
use vstd::prelude::*;

verus! {

/// Nanoseconds in one second.
pub const NANOS_PER_SECOND: u64 = 1_000_000_000;

/// The value of a completed ratio: `get_ratio` counts in millionths.
pub const RATIO_ONE: u32 = 1_000_000;

/// What a timer holds, as mathematical values.
pub struct TimerView {
    pub duration: nat,
    pub remain: nat,
    pub ratio: nat,
    pub looping: bool,
    pub stopped: bool,
    pub paused: bool,
}

/// The part of `duration` that has passed once `remain` is left, in millionths.
pub open spec fn ratio_of(duration: nat, remain: nat) -> nat
    recommends
        0 < duration,
        remain <= duration,
{
    ((duration - remain) * RATIO_ONE as int / duration as int) as nat
}

impl TimerView {
    /// A stopped timer with the whole of `duration` left.
    pub open spec fn fresh(duration: nat, looping: bool) -> TimerView {
        TimerView { duration, remain: duration, ratio: 0, looping, stopped: true, paused: false }
    }

    pub open spec fn started(self) -> TimerView {
        TimerView { stopped: false, paused: false, ..self }
    }

    pub open spec fn rewound(self) -> TimerView {
        TimerView { remain: self.duration, ratio: 0, stopped: true, paused: false, ..self }
    }

    pub open spec fn ended(self) -> TimerView {
        TimerView { remain: 0, ratio: RATIO_ONE as nat, stopped: true, paused: false, ..self }
    }

    pub open spec fn is_running(self) -> bool {
        !self.stopped
    }

    /// The state after `delta` nanoseconds have passed, and whether the timer went off.
    ///
    /// A stopped or paused timer does not move. A running one counts down; when
    /// nothing is left it goes off, and then either starts over (looping) or
    /// stops at its end.
    pub open spec fn advanced(self, delta: nat) -> (TimerView, bool) {
        if self.stopped || self.paused {
            (self, false)
        } else if delta >= self.remain {
            if self.looping {
                (self.rewound().started(), true)
            } else {
                (self.ended(), true)
            }
        } else {
            let remain = (self.remain - delta) as nat;
            (TimerView { remain, ratio: ratio_of(self.duration, remain), ..self }, false)
        }
    }
}

/// A stopped or paused timer holds still, whatever time passes.
pub proof fn lemma_idle_timer_holds(v: TimerView, delta: nat)
    requires
        v.stopped || v.paused,
    ensures
        v.advanced(delta) == (v, false),
{
}

/// Counting down in two steps that do not reach the end is counting down
/// once by their sum.
pub proof fn lemma_advance_additive(v: TimerView, a: nat, b: nat)
    requires
        v.remain <= v.duration,
        a + b < v.remain,
    ensures
        !v.advanced(a).1,
        v.advanced(a).0.advanced(b) == v.advanced(a + b),
{
}

#[derive(Clone, Copy, Debug)]
pub struct MxTimer {
    time_duration: u64,
    time_remain: u64,
    time_ratio: u32,
    is_looping: bool,
    is_stopped: bool,
    is_paused: bool,
}

impl View for MxTimer {
    type V = TimerView;

    closed spec fn view(&self) -> TimerView {
        TimerView {
            duration: self.time_duration as nat,
            remain: self.time_remain as nat,
            ratio: self.time_ratio as nat,
            looping: self.is_looping,
            stopped: self.is_stopped,
            paused: self.is_paused,
        }
    }
}

proof fn lemma_ratio_bounded(duration: nat, remain: nat)
    requires
        0 < duration,
        remain <= duration,
    ensures
        ratio_of(duration, remain) <= RATIO_ONE,
{
    let past = duration - remain;
    assert(past * RATIO_ONE as int <= duration * RATIO_ONE as int) by (nonlinear_arith)
        requires
            past <= duration,
    ;
    assert(past * RATIO_ONE as int / duration as int <= RATIO_ONE as int) by (nonlinear_arith)
        requires
            past * RATIO_ONE as int <= duration * RATIO_ONE as int,
            0 < duration,
            0 <= past,
    ;
}

impl MxTimer {
    #[verifier::type_invariant]
    spec fn inv(self) -> bool {
        &&& self.time_remain <= self.time_duration
        &&& self.time_ratio <= RATIO_ONE
    }

    /// A stopped timer of `duration` nanoseconds, repeating if `repeat` is set.
    pub fn new(duration: u64, repeat: bool) -> (r: MxTimer)
        ensures
            r@ == TimerView::fresh(duration as nat, repeat),
    {
        MxTimer {
            time_duration: duration,
            time_remain: duration,
            time_ratio: 0,
            is_looping: repeat,
            is_stopped: true,
            is_paused: false,
        }
    }

    pub fn set(&mut self, duration: u64, repeat: bool)
        ensures
            final(self)@ == TimerView::fresh(duration as nat, repeat),
    {
        *self = MxTimer::new(duration, repeat);
    }

    /// Lets `delta` nanoseconds pass; returns whether the timer went off.
    pub fn update(&mut self, delta: u64) -> (alarm: bool)
        ensures
            (final(self)@, alarm) == old(self)@.advanced(delta as nat),
    {
        proof {
            use_type_invariant(&*self);
        }
        if self.is_stopped || self.is_paused {
            return false;
        }
        if delta >= self.time_remain {
            if self.is_looping {
                self.reset();
                self.start();
            } else {
                self.jump_to_end();
            }
            true
        } else {
            let remain = self.time_remain - delta;
            let past = self.time_duration - remain;
            let scaled = past as u128 * RATIO_ONE as u128;
            proof {
                lemma_ratio_bounded(self.time_duration as nat, remain as nat);
                assert(past * RATIO_ONE as int <= 0xffff_ffff_ffff_ffffu64 * RATIO_ONE as int)
                    by (nonlinear_arith)
                    requires
                        past <= 0xffff_ffff_ffff_ffffu64,
                ;
            }
            let ratio = (scaled / self.time_duration as u128) as u32;
            *self = MxTimer { time_remain: remain, time_ratio: ratio, ..*self };
            false
        }
    }

    pub fn start(&mut self)
        ensures
            final(self)@ == old(self)@.started(),
    {
        proof {
            use_type_invariant(&*self);
        }
        *self = MxTimer { is_stopped: false, is_paused: false, ..*self };
    }

    pub fn reset(&mut self)
        ensures
            final(self)@ == old(self)@.rewound(),
    {
        *self = MxTimer {
            time_remain: self.time_duration,
            time_ratio: 0,
            is_stopped: true,
            is_paused: false,
            ..*self
        };
    }

    pub fn jump_to_end(&mut self)
        ensures
            final(self)@ == old(self)@.ended(),
    {
        *self = MxTimer {
            time_remain: 0,
            time_ratio: RATIO_ONE,
            is_stopped: true,
            is_paused: false,
            ..*self
        };
    }

    /// Nanoseconds that have passed since the timer was last set or rewound.
    pub fn get_time_past(&self) -> (r: u64)
        ensures
            r == self@.duration - self@.remain,
    {
        proof {
            use_type_invariant(self);
        }
        self.time_duration - self.time_remain
    }

    pub fn get_time_remain(&self) -> (r: u64)
        ensures
            r == self@.remain,
            r <= self@.duration,
    {
        proof {
            use_type_invariant(self);
        }
        self.time_remain
    }

    pub fn get_duration(&self) -> (r: u64)
        ensures
            r == self@.duration,
    {
        self.time_duration
    }

    /// How much of the duration has passed, in millionths (`RATIO_ONE` at the end).
    pub fn get_ratio(&self) -> (r: u32)
        ensures
            r == self@.ratio,
            r <= RATIO_ONE,
    {
        proof {
            use_type_invariant(self);
        }
        self.time_ratio
    }

    pub fn pause(&mut self)
        ensures
            final(self)@ == (TimerView { paused: true, ..old(self)@ }),
    {
        proof {
            use_type_invariant(&*self);
        }
        *self = MxTimer { is_paused: true, ..*self };
    }

    pub fn resure(&mut self)
        ensures
            final(self)@ == (TimerView { paused: false, ..old(self)@ }),
    {
        proof {
            use_type_invariant(&*self);
        }
        *self = MxTimer { is_paused: false, ..*self };
    }

    pub fn is_running(&self) -> (r: bool)
        ensures
            r == self@.is_running(),
    {
        !self.is_stopped
    }
}

impl Default for MxTimer {
    fn default() -> (r: MxTimer)
        ensures
            r@ == TimerView::fresh(0, false),
    {
        MxTimer::new(0, false)
    }
}

} // verus!
