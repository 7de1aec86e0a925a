//! The main menu: a column of buttons, a cursor over them, and what
//! confirming each button does.
use vstd::prelude::*;
use crate::audio::SoundType;
use crate::cursor::UiCursorComp;
use crate::flow::{same_text, MenuInput, Transition};
use crate::timer::{MxTimer, TimerView, NANOS_PER_SECOND};

verus! {

/// Group shared by the main menu's cursor and its options.
pub const MAIN_MENU: &'static str = "main_menu";
pub const BUTTON_ARCADE: &'static str = "button_arcade";
pub const BUTTON_1_PLAYER: &'static str = "button_1_player";
pub const BUTTON_2_PLAYERS: &'static str = "button_2_players";
pub const BUTTON_CPU_V_CPU: &'static str = "button_cpu_v_cpu";
pub const BUTTON_EXIT: &'static str = "button_exit";

/// Time between confirming the arcade button and leaving the menu.
pub const MENU_TRANSITION_TIME: u64 = 2 * NANOS_PER_SECOND;

/// The button ids, top to bottom: the cursor's options and the order in which
/// the menu's buttons are numbered.
pub open spec fn button_ids() -> Seq<Seq<char>> {
    seq![
        BUTTON_ARCADE@,
        BUTTON_1_PLAYER@,
        BUTTON_2_PLAYERS@,
        BUTTON_CPU_V_CPU@,
        BUTTON_EXIT@,
    ]
}

/// Where the cursor stands beside each button.
pub open spec fn cursor_positions() -> Seq<(i32, i32)> {
    seq![(-160i32, 0i32), (-160i32, -80i32), (-160i32, -160i32), (-160i32, -240i32), (-160i32, -360i32)]
}

/// The main menu's cursor, on the top button and not yet placed.
pub fn main_menu_cursor() -> (r: UiCursorComp)
    ensures
        r.wf(),
        r.group@ == MAIN_MENU@,
        r.current_pos == 0,
        r.pos_list@ == cursor_positions(),
        r.pos_id_list@.map_values(|s: String| s@) == button_ids(),
        r.start_up,
        !r.freezed,
{
    let pos_list = vec![(-160i32, 0i32), (-160i32, -80i32), (-160i32, -160i32), (-160i32, -240i32), (-160i32, -360i32)];
    let pos_id_list = vec![
        BUTTON_ARCADE.to_owned(),
        BUTTON_1_PLAYER.to_owned(),
        BUTTON_2_PLAYERS.to_owned(),
        BUTTON_CPU_V_CPU.to_owned(),
        BUTTON_EXIT.to_owned(),
    ];
    assert(pos_list@ == cursor_positions());
    assert(pos_id_list@.map_values(|s: String| s@) == button_ids());
    UiCursorComp::new(MAIN_MENU.to_owned(), 0, pos_list, pos_id_list, false)
}

/// What the menu asks for in answer to an input.
#[derive(Clone, Copy, Debug, PartialEq, Eq, Structural)]
pub struct MenuReaction {
    pub sound: Option<SoundType>,
    /// Move the cursor one option down (`true`) or up.
    pub move_cursor: Option<bool>,
    /// Make the button with this number (top to bottom) flash.
    pub flash_button: Option<usize>,
    pub freeze_cursor: bool,
    pub trans: Transition,
}

pub open spec fn no_reaction() -> MenuReaction {
    MenuReaction {
        sound: None,
        move_cursor: None,
        flash_button: None,
        freeze_cursor: false,
        trans: Transition::Stay,
    }
}

/// The answer to confirming with the cursor on `choice` (`None` when there
/// is no cursor). Confirming is always heard; the arcade button flashes and
/// freezes the cursor, the three other game buttons flash, and exit quits.
pub open spec fn confirm_reaction(choice: Option<Seq<char>>) -> MenuReaction {
    let heard = MenuReaction { sound: Some(SoundType::ButtonPush), ..no_reaction() };
    match choice {
        None => heard,
        Some(c) => if c == BUTTON_ARCADE@ {
            MenuReaction { flash_button: Some(0), freeze_cursor: true, ..heard }
        } else if c == BUTTON_1_PLAYER@ {
            MenuReaction { flash_button: Some(1), ..heard }
        } else if c == BUTTON_2_PLAYERS@ {
            MenuReaction { flash_button: Some(2), ..heard }
        } else if c == BUTTON_CPU_V_CPU@ {
            MenuReaction { flash_button: Some(3), ..heard }
        } else if c == BUTTON_EXIT@ {
            MenuReaction { trans: Transition::Quit, ..heard }
        } else {
            heard
        },
    }
}

/// What the menu asks for at the start of a frame.
#[derive(Clone, Copy, Debug, PartialEq, Eq, Structural)]
pub struct MenuUpdate {
    /// Add the effects to the freshly shown menu: glowing buttons, the
    /// swinging cursor and the waving title.
    pub set_up: bool,
    pub trans: Transition,
}

pub struct MainMenuState {
    pub main_menu_is_ready: bool,
    pub transition_timer: MxTimer,
    /// The id of the option that was confirmed; empty until one is.
    pub triggered_action: String,
}

impl MainMenuState {
    pub fn new() -> (r: MainMenuState)
        ensures
            !r.main_menu_is_ready,
            r.transition_timer@ == TimerView::fresh(0, false),
            r.triggered_action@.len() == 0,
    {
        MainMenuState {
            main_menu_is_ready: false,
            transition_timer: MxTimer::new(0, false),
            triggered_action: String::new(),
        }
    }

    /// The menu is shown: nothing is confirmed yet, and the transition timer is set.
    pub fn on_start(&mut self)
        ensures
            final(self).main_menu_is_ready == old(self).main_menu_is_ready,
            final(self).transition_timer@ == TimerView::fresh(MENU_TRANSITION_TIME as nat, false),
            final(self).triggered_action@.len() == 0,
    {
        self.transition_timer.set(MENU_TRANSITION_TIME, false);
        self.triggered_action = String::new();
    }

    pub fn on_stop(&mut self)
        ensures
            !final(self).main_menu_is_ready,
            final(self).transition_timer@ == old(self).transition_timer@,
            final(self).triggered_action@ == old(self).triggered_action@,
    {
        self.main_menu_is_ready = false;
    }

    /// One frame, `delta` nanoseconds after the last. `has_screen` tells
    /// whether the menu's screen has been shown.
    ///
    /// The first frame with the screen asks for the menu's effects. Once an
    /// option is confirmed the transition timer runs, and when it goes off
    /// after the arcade button the menu hands over to the game.
    pub fn update(&mut self, has_screen: bool, delta: u64) -> (r: MenuUpdate)
        ensures
            final(self).triggered_action@ == old(self).triggered_action@,
            !old(self).main_menu_is_ready ==> {
                &&& r == (MenuUpdate { set_up: has_screen, trans: Transition::Stay })
                &&& final(self).main_menu_is_ready == has_screen
                &&& final(self).transition_timer@ == old(self).transition_timer@
            },
            old(self).main_menu_is_ready && old(self).triggered_action@.len() == 0 ==> {
                &&& r == (MenuUpdate { set_up: false, trans: Transition::Stay })
                &&& final(self).main_menu_is_ready
                &&& final(self).transition_timer@ == old(self).transition_timer@
            },
            old(self).main_menu_is_ready && old(self).triggered_action@.len() > 0 ==> {
                let (t, alarm) = old(self).transition_timer@.advanced(delta as nat);
                &&& final(self).main_menu_is_ready
                &&& final(self).transition_timer@ == t
                &&& !r.set_up
                &&& r.trans == if alarm && old(self).triggered_action@ == BUTTON_ARCADE@ {
                    Transition::Switch
                } else {
                    Transition::Stay
                }
            },
    {
        if !self.main_menu_is_ready {
            if has_screen {
                self.main_menu_is_ready = true;
                return MenuUpdate { set_up: true, trans: Transition::Stay };
            }
        } else if !self.triggered_action.as_str().is_empty() {
            let alarm = self.transition_timer.update(delta);
            if alarm && same_text(self.triggered_action.as_str(), BUTTON_ARCADE) {
                return MenuUpdate { set_up: false, trans: Transition::Switch };
            }
        }
        MenuUpdate { set_up: false, trans: Transition::Stay }
    }

    /// The answer to a pressed input `action`. `choice` is the id under the
    /// cursor, `None` when the menu has no cursor.
    ///
    /// Once an option is confirmed the menu ignores all input. Up and down move
    /// the cursor; confirming records the choice and answers as
    /// `confirm_reaction` says, and confirming the arcade button starts the
    /// transition timer.
    pub fn handle_action(&mut self, action: &str, choice: Option<&str>) -> (r: MenuReaction)
        ensures
            final(self).main_menu_is_ready == old(self).main_menu_is_ready,
            old(self).triggered_action@.len() > 0 || MenuInput::of(action@) != MenuInput::Confirm
                || choice is None ==> {
                &&& final(self).transition_timer@ == old(self).transition_timer@
                &&& final(self).triggered_action@ == old(self).triggered_action@
            },
            old(self).triggered_action@.len() > 0 ==> r == no_reaction(),
            old(self).triggered_action@.len() == 0 ==> r == match MenuInput::of(action@) {
                MenuInput::Confirm => confirm_reaction(
                    match choice {
                        Some(c) => Some(c@),
                        None => None,
                    },
                ),
                MenuInput::Up => MenuReaction { move_cursor: Some(false), ..no_reaction() },
                MenuInput::Down => MenuReaction { move_cursor: Some(true), ..no_reaction() },
                MenuInput::Other => no_reaction(),
            },
            old(self).triggered_action@.len() == 0 && MenuInput::of(action@) == MenuInput::Confirm
                && choice is Some ==> {
                &&& final(self).triggered_action@ == choice->0@
                &&& final(self).transition_timer@ == if choice->0@ == BUTTON_ARCADE@ {
                    old(self).transition_timer@.started()
                } else {
                    old(self).transition_timer@
                }
            },
    {
        let none = MenuReaction {
            sound: None,
            move_cursor: None,
            flash_button: None,
            freeze_cursor: false,
            trans: Transition::Stay,
        };
        if !self.triggered_action.as_str().is_empty() {
            return none;
        }
        match MenuInput::parse(action) {
            MenuInput::Confirm => {
                let heard = MenuReaction { sound: Some(SoundType::ButtonPush), ..none };
                match choice {
                    None => heard,
                    Some(c) => {
                        self.triggered_action = c.to_owned();
                        if same_text(c, BUTTON_ARCADE) {
                            self.transition_timer.start();
                            MenuReaction { flash_button: Some(0), freeze_cursor: true, ..heard }
                        } else if same_text(c, BUTTON_1_PLAYER) {
                            MenuReaction { flash_button: Some(1), ..heard }
                        } else if same_text(c, BUTTON_2_PLAYERS) {
                            MenuReaction { flash_button: Some(2), ..heard }
                        } else if same_text(c, BUTTON_CPU_V_CPU) {
                            MenuReaction { flash_button: Some(3), ..heard }
                        } else if same_text(c, BUTTON_EXIT) {
                            MenuReaction { trans: Transition::Quit, ..heard }
                        } else {
                            heard
                        }
                    },
                }
            },
            MenuInput::Up => MenuReaction { move_cursor: Some(false), ..none },
            MenuInput::Down => MenuReaction { move_cursor: Some(true), ..none },
            MenuInput::Other => none,
        }
    }
}

impl Default for MainMenuState {
    fn default() -> (r: MainMenuState)
        ensures
            !r.main_menu_is_ready,
            r.transition_timer@ == TimerView::fresh(0, false),
            r.triggered_action@.len() == 0,
    {
        MainMenuState::new()
    }
}

} // verus!
