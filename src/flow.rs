//! What a screen asks of the game loop, and the input actions that screens read.
use vstd::prelude::*;

verus! {

/// Where the game goes after a screen's frame or event.
#[derive(Clone, Copy, Debug, PartialEq, Eq, Structural)]
pub enum Transition {
    /// Stay on this screen.
    Stay,
    /// Leave the game.
    Quit,
    /// Replace this screen by the next one.
    Switch,
}

/// How far an asset load has come.
#[derive(Clone, Copy, Debug, PartialEq, Eq, Structural)]
pub enum LoadProgress {
    Loading,
    Failed,
    Complete,
}

pub const ACTION_CONFIRM: &'static str = "confirm";
pub const ACTION_UP: &'static str = "ui_up";
pub const ACTION_DOWN: &'static str = "ui_down";

/// A pressed input action, as the menus understand it.
#[derive(Clone, Copy, Debug, PartialEq, Eq, Structural)]
pub enum MenuInput {
    Confirm,
    Up,
    Down,
    Other,
}

/// Whether two texts are the same.
pub fn same_text(a: &str, b: &str) -> (r: bool)
    ensures
        r == (a@ == b@),
{
    a.to_owned() == b.to_owned()
}

impl MenuInput {
    pub open spec fn of(action: Seq<char>) -> MenuInput {
        if action == ACTION_CONFIRM@ {
            MenuInput::Confirm
        } else if action == ACTION_UP@ {
            MenuInput::Up
        } else if action == ACTION_DOWN@ {
            MenuInput::Down
        } else {
            MenuInput::Other
        }
    }

    /// The menu input that a pressed action names.
    pub fn parse(action: &str) -> (r: MenuInput)
        ensures
            r == MenuInput::of(action@),
    {
        if same_text(action, ACTION_CONFIRM) {
            MenuInput::Confirm
        } else if same_text(action, ACTION_UP) {
            MenuInput::Up
        } else if same_text(action, ACTION_DOWN) {
            MenuInput::Down
        } else {
            MenuInput::Other
        }
    }
}

} // verus!
