//! The disclaimer screen: shown until the player confirms.
use vstd::prelude::*;
use crate::flow::{MenuInput, Transition};

verus! {

#[derive(Clone, Copy, Debug, PartialEq, Eq, Structural)]
pub struct DisclaimerState {
    pub disclaimer_is_ready: bool,
}

impl DisclaimerState {
    pub fn new() -> (r: DisclaimerState)
        ensures
            !r.disclaimer_is_ready,
    {
        DisclaimerState { disclaimer_is_ready: false }
    }

    pub fn on_stop(&mut self)
        ensures
            !final(self).disclaimer_is_ready,
    {
        self.disclaimer_is_ready = false;
    }

    /// One frame; `has_screen` tells whether the disclaimer is shown. Returns
    /// whether its instruction should start pulsing, which it does once, on
    /// the first frame with the screen.
    pub fn update(&mut self, has_screen: bool) -> (set_up: bool)
        ensures
            set_up == (!old(self).disclaimer_is_ready && has_screen),
            final(self).disclaimer_is_ready == (old(self).disclaimer_is_ready || has_screen),
    {
        if !self.disclaimer_is_ready && has_screen {
            self.disclaimer_is_ready = true;
            true
        } else {
            false
        }
    }

    /// Confirming moves on to the main menu; any other action is ignored.
    pub fn handle_action(&self, action: &str) -> (r: Transition)
        ensures
            r == if MenuInput::of(action@) == MenuInput::Confirm {
                Transition::Switch
            } else {
                Transition::Stay
            },
    {
        match MenuInput::parse(action) {
            MenuInput::Confirm => Transition::Switch,
            _ => Transition::Stay,
        }
    }
}

impl Default for DisclaimerState {
    fn default() -> (r: DisclaimerState)
        ensures
            !r.disclaimer_is_ready,
    {
        DisclaimerState::new()
    }
}

} // verus!
