//! The loading screen: wait for the loading screen's own assets, show it,
//! wait for the other screens' assets, then move on.
use vstd::prelude::*;
use crate::flow::{LoadProgress, Transition};

verus! {

/// Where the loading screen's own layout lies, under the resource directory.
pub const LOADING_SCREEN_PATH: &'static str = "/resources/ui/loading_screen.ron";

/// Where the other screens' layouts lie, under the resource directory.
pub const PREFAB_DIR: &'static str = "/resources/ui/prefabs";

/// The sub-directory under which a screen layout is loaded by name.
pub const PREFAB_SUBDIR: &'static str = "ui/prefabs/";

/// The name under which a layout file is loaded: its file name under `subdirectory`.
pub fn make_name(subdirectory: &str, file_name: &str) -> (r: String)
    ensures
        r@ == subdirectory@ + file_name@,
{
    let mut name = subdirectory.to_owned();
    name.append(file_name);
    name
}

/// Frames that the loading screen stays up after everything has loaded.
pub const MIN_LOADING_FRAMES: u32 = 90;

/// What the loading screen asks for in one frame.
#[derive(Clone, Copy, Debug, PartialEq, Eq, Structural)]
pub struct LoadingStep {
    /// Show the loading screen, whose assets are now loaded.
    pub show_screen: bool,
    /// Make the loading screen's label pulse.
    pub start_flashing: bool,
    pub trans: Transition,
}

#[derive(Clone, Copy, Debug, PartialEq, Eq, Structural)]
pub struct LoadingState {
    pub loading_screen_is_ready: bool,
    pub test_frame_count: u32,
}

pub open spec fn step_of(show_screen: bool, start_flashing: bool, trans: Transition) -> LoadingStep {
    LoadingStep { show_screen, start_flashing, trans }
}

/// The state and the request after one frame, from the state `s` before it.
///
/// `has_screen` tells whether the loading screen is shown; `screen` and
/// `prefabs` are the progress of the two loads, `None` for one not started.
/// While the screen is not shown, its load decides first: still loading
/// waits, a failure quits, and success asks to show it. The frame after it
/// is shown, its label starts to pulse. Then the load of the other screens
/// decides: still loading waits, a failure quits, and success moves on once
/// `MIN_LOADING_FRAMES` more frames have passed.
pub open spec fn loading_next(
    s: LoadingState,
    has_screen: bool,
    screen: Option<LoadProgress>,
    prefabs: Option<LoadProgress>,
) -> (LoadingState, LoadingStep) {
    if !has_screen && screen == Some(LoadProgress::Loading) {
        (s, step_of(false, false, Transition::Stay))
    } else if !has_screen && screen == Some(LoadProgress::Failed) {
        (s, step_of(false, false, Transition::Quit))
    } else {
        let show = !has_screen && screen == Some(LoadProgress::Complete);
        let flash = has_screen && !s.loading_screen_is_ready;
        let s1 = LoadingState { loading_screen_is_ready: s.loading_screen_is_ready || flash, ..s };
        match prefabs {
            Some(LoadProgress::Loading) => (s1, step_of(show, flash, Transition::Stay)),
            Some(LoadProgress::Failed) => (s1, step_of(show, flash, Transition::Quit)),
            Some(LoadProgress::Complete) => if s1.test_frame_count < MIN_LOADING_FRAMES {
                (
                    LoadingState { test_frame_count: (s1.test_frame_count + 1) as u32, ..s1 },
                    step_of(show, flash, Transition::Stay),
                )
            } else {
                (s1, step_of(show, flash, Transition::Switch))
            },
            None => (s1, step_of(show, flash, Transition::Stay)),
        }
    }
}

impl LoadingState {
    pub fn new() -> (r: LoadingState)
        ensures
            r == (LoadingState { loading_screen_is_ready: false, test_frame_count: 0 }),
    {
        LoadingState { loading_screen_is_ready: false, test_frame_count: 0 }
    }

    pub fn on_stop(&mut self)
        ensures
            *final(self) == (LoadingState { loading_screen_is_ready: false, ..*old(self) }),
    {
        self.loading_screen_is_ready = false;
    }

    /// One frame of the loading screen; see `loading_next`.
    pub fn update(
        &mut self,
        has_screen: bool,
        screen: Option<LoadProgress>,
        prefabs: Option<LoadProgress>,
    ) -> (r: LoadingStep)
        ensures
            (*final(self), r) == loading_next(*old(self), has_screen, screen, prefabs),
    {
        let mut show_screen = false;
        let mut start_flashing = false;
        if !has_screen {
            match screen {
                Some(LoadProgress::Loading) => {
                    return LoadingStep { show_screen, start_flashing, trans: Transition::Stay };
                },
                Some(LoadProgress::Failed) => {
                    return LoadingStep { show_screen, start_flashing, trans: Transition::Quit };
                },
                Some(LoadProgress::Complete) => {
                    show_screen = true;
                },
                None => {},
            }
        } else if !self.loading_screen_is_ready {
            start_flashing = true;
            self.loading_screen_is_ready = true;
        }
        let trans = match prefabs {
            Some(LoadProgress::Loading) => Transition::Stay,
            Some(LoadProgress::Failed) => Transition::Quit,
            Some(LoadProgress::Complete) => {
                if self.test_frame_count < MIN_LOADING_FRAMES {
                    self.test_frame_count = self.test_frame_count + 1;
                    Transition::Stay
                } else {
                    Transition::Switch
                }
            },
            None => Transition::Stay,
        };
        LoadingStep { show_screen, start_flashing, trans }
    }
}

impl Default for LoadingState {
    fn default() -> (r: LoadingState)
        ensures
            r == (LoadingState { loading_screen_is_ready: false, test_frame_count: 0 }),
    {
        LoadingState::new()
    }
}

} // verus!
