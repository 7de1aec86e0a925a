//! A row of elements that wave one after the other, then rest, then wave again.
//!
//! Each element knows its place in the row (`order`). Its timer first holds it
//! back by `order * delay`, then runs one wave of `play_time` and a rest of
//! `wait_time`, over and over. When the first element of the row starts a new
//! wave, every element handled after it in the same frame starts over too, so
//! the row stays in step.
use vstd::prelude::*;
use crate::timer::{MxTimer, TimerView};

verus! {

/// What a waving element shows this frame.
#[derive(Clone, Copy, Debug, PartialEq, Eq, Structural)]
pub enum WaveLook {
    /// Whatever it showed before.
    Unchanged,
    /// Its resting position.
    Rest,
    /// Its resting position lifted by the wave at this point of the wave's
    /// period, in millionths of the period.
    Wave { ratio: u32 },
}

/// The outcome of one frame for one element.
#[derive(Clone, Copy, Debug, PartialEq, Eq, Structural)]
pub struct WaveStep {
    pub look: WaveLook,
    /// Whether the elements handled after this one in the same frame start over.
    pub next_cycle: bool,
}

/// How long an element waits before its first wave: its place in the row times
/// the delay between neighbours, or the longest time a timer holds if that is more.
pub open spec fn lead_in(order: nat, delay: nat) -> nat {
    if order * delay > u64::MAX {
        u64::MAX as nat
    } else {
        order * delay
    }
}

pub struct UiWavingComp {
    pub group: String,
    pub order: usize,
    pub is_waving: bool,
    /// Nanoseconds between the first waves of two neighbours.
    pub delay: u64,
    pub timer: MxTimer,
    /// Nanoseconds that one wave lasts.
    pub play_time: u64,
    /// Nanoseconds of rest between two waves.
    pub wait_time: u64,
    /// Whether the timer is timing a wave, rather than a rest or the lead-in.
    pub playing: bool,
}

impl UiWavingComp {
    pub fn new(
        group: String,
        order: usize,
        is_waving: bool,
        delay: u64,
        play_time: u64,
        wait_time: u64,
    ) -> (r: UiWavingComp)
        ensures
            r.group == group,
            r.order == order,
            r.is_waving == is_waving,
            r.delay == delay,
            r.timer@ == TimerView::fresh(play_time as nat, false),
            r.play_time == play_time,
            r.wait_time == wait_time,
            r.playing,
    {
        UiWavingComp {
            group,
            order,
            is_waving,
            delay,
            timer: MxTimer::new(play_time, false),
            play_time,
            wait_time,
            playing: true,
        }
    }

    /// The fields that a frame never changes are those of `other`.
    pub open spec fn same_setup(self, other: UiWavingComp) -> bool {
        &&& self.group == other.group
        &&& self.order == other.order
        &&& self.is_waving == other.is_waving
        &&& self.delay == other.delay
        &&& self.play_time == other.play_time
        &&& self.wait_time == other.wait_time
    }

    /// One frame of the waving system for this element, `delta` nanoseconds
    /// after the last one. `next_cycle` says whether an element handled
    /// earlier in this frame started a new wave of the row.
    ///
    /// An element that does not wave is left alone. One whose timer is not
    /// running, or that must start over, is (re)started: held back by its
    /// lead-in unless it is the first of the row. Otherwise its timer runs: the
    /// element shows the wave while playing and rests while not; when the
    /// timer goes off a wave is followed by a rest and a rest (or the lead-in)
    /// by a wave, and the first element starting a wave makes the rest of the
    /// row start over.
    pub fn wave_step(&mut self, delta: u64, next_cycle: bool) -> (r: WaveStep)
        ensures
            final(self).same_setup(*old(self)),
            !old(self).is_waving ==> {
                &&& r == (WaveStep { look: WaveLook::Unchanged, next_cycle })
                &&& final(self).timer@ == old(self).timer@
                &&& final(self).playing == old(self).playing
            },
            old(self).is_waving && (!old(self).timer@.is_running() || next_cycle) ==> {
                &&& r == (WaveStep { look: WaveLook::Unchanged, next_cycle })
                &&& if old(self).order > 0 {
                    &&& final(self).timer@ == TimerView::fresh(
                        lead_in(old(self).order as nat, old(self).delay as nat),
                        false,
                    ).started()
                    &&& !final(self).playing
                } else {
                    &&& final(self).timer@ == old(self).timer@.started()
                    &&& final(self).playing == old(self).playing
                }
            },
            old(self).is_waving && old(self).timer@.is_running() && !next_cycle ==> {
                let (t, finished) = old(self).timer@.advanced(delta as nat);
                &&& r.look == if old(self).playing {
                    WaveLook::Wave { ratio: t.ratio as u32 }
                } else {
                    WaveLook::Rest
                }
                &&& !finished ==> {
                    &&& final(self).timer@ == t
                    &&& final(self).playing == old(self).playing
                    &&& !r.next_cycle
                }
                &&& finished && old(self).playing ==> {
                    &&& final(self).timer@ == TimerView::fresh(
                        old(self).wait_time as nat,
                        false,
                    ).started()
                    &&& !final(self).playing
                    &&& !r.next_cycle
                }
                &&& finished && !old(self).playing ==> {
                    &&& final(self).timer@ == TimerView::fresh(
                        old(self).play_time as nat,
                        false,
                    ).started()
                    &&& final(self).playing
                    &&& r.next_cycle == (old(self).order == 0)
                }
            },
    {
        if !self.is_waving {
            return WaveStep { look: WaveLook::Unchanged, next_cycle };
        }
        if !self.timer.is_running() || next_cycle {
            if self.order > 0 {
                let lead = match (self.order as u64).checked_mul(self.delay) {
                    Some(d) => d,
                    None => u64::MAX,
                };
                self.timer.set(lead, false);
                self.playing = false;
            }
            self.timer.start();
            return WaveStep { look: WaveLook::Unchanged, next_cycle };
        }
        let finished = self.timer.update(delta);
        let look = if self.playing {
            WaveLook::Wave { ratio: self.timer.get_ratio() }
        } else {
            WaveLook::Rest
        };
        let mut next = false;
        if finished {
            if self.playing {
                self.timer.set(self.wait_time, false);
                self.timer.start();
                self.playing = false;
            } else {
                self.timer.set(self.play_time, false);
                self.timer.start();
                self.playing = true;
                next = self.order == 0;
            }
        }
        WaveStep { look, next_cycle: next }
    }
}

} // verus!
