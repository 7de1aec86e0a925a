//! The arcade game screen: a stage banner pulses for a while, then hides.
use vstd::prelude::*;
use crate::timer::{MxTimer, TimerView};

verus! {

/// How long the stage banner stays up.
pub const STAGE_INFO_TIME: u64 = 3_500_000_000;

/// What the game screen asks for in one frame.
#[derive(Clone, Copy, Debug, PartialEq, Eq, Structural)]
pub struct ArcadeUpdate {
    /// Find the stage banner and make it pulse.
    pub set_up: bool,
    /// Hide the stage banner.
    pub hide_stage_info: bool,
}

pub struct ArcadeGameState {
    pub game_is_ready: bool,
    pub transition_timer: MxTimer,
}

impl ArcadeGameState {
    pub fn new() -> (r: ArcadeGameState)
        ensures
            !r.game_is_ready,
            r.transition_timer@ == TimerView::fresh(0, false),
    {
        ArcadeGameState { game_is_ready: false, transition_timer: MxTimer::new(0, false) }
    }

    pub fn on_start(&mut self)
        ensures
            final(self).game_is_ready == old(self).game_is_ready,
            final(self).transition_timer@ == TimerView::fresh(STAGE_INFO_TIME as nat, false),
    {
        self.transition_timer.set(STAGE_INFO_TIME, false);
    }

    pub fn on_stop(&mut self)
        ensures
            !final(self).game_is_ready,
            final(self).transition_timer@ == old(self).transition_timer@,
    {
        self.game_is_ready = false;
    }

    /// One frame, `delta` nanoseconds after the last; `has_ui` tells whether
    /// the game's screen is shown. The first frame sets the banner up and
    /// starts its timer (if the screen is there); later frames run the timer,
    /// and the banner hides when it goes off.
    pub fn update(&mut self, has_ui: bool, delta: u64) -> (r: ArcadeUpdate)
        ensures
            final(self).game_is_ready,
            !old(self).game_is_ready ==> {
                &&& r == (ArcadeUpdate { set_up: has_ui, hide_stage_info: false })
                &&& final(self).transition_timer@ == if has_ui {
                    old(self).transition_timer@.started()
                } else {
                    old(self).transition_timer@
                }
            },
            old(self).game_is_ready ==> {
                let (t, alarm) = old(self).transition_timer@.advanced(delta as nat);
                &&& r == (ArcadeUpdate { set_up: false, hide_stage_info: alarm })
                &&& final(self).transition_timer@ == t
            },
    {
        if !self.game_is_ready {
            self.game_is_ready = true;
            if has_ui {
                self.transition_timer.start();
            }
            ArcadeUpdate { set_up: has_ui, hide_stage_info: false }
        } else {
            let alarm = self.transition_timer.update(delta);
            ArcadeUpdate { set_up: false, hide_stage_info: alarm }
        }
    }
}

impl Default for ArcadeGameState {
    fn default() -> (r: ArcadeGameState)
        ensures
            !r.game_is_ready,
            r.transition_timer@ == TimerView::fresh(0, false),
    {
        ArcadeGameState::new()
    }
}

} // verus!
