//! The fixed four-entry cursor of the main menu.
use vstd::prelude::*;

verus! {

/// One entry of the main menu, top to bottom.
#[derive(Clone, Copy, Debug, PartialEq, Eq, Structural)]
pub enum UiMainMenuCursorPos {
    Game1Player,
    Game2Player2,
    GameCpuVCpu,
    GameExit,
}

impl UiMainMenuCursorPos {
    /// Place of the entry in the menu, counted from the top.
    pub open spec fn index(self) -> int {
        match self {
            UiMainMenuCursorPos::Game1Player => 0,
            UiMainMenuCursorPos::Game2Player2 => 1,
            UiMainMenuCursorPos::GameCpuVCpu => 2,
            UiMainMenuCursorPos::GameExit => 3,
        }
    }

    /// The entry at a place of the menu (taken modulo the menu's length).
    pub open spec fn at_index(i: int) -> UiMainMenuCursorPos {
        let k = i % 4;
        if k == 0 {
            UiMainMenuCursorPos::Game1Player
        } else if k == 1 {
            UiMainMenuCursorPos::Game2Player2
        } else if k == 2 {
            UiMainMenuCursorPos::GameCpuVCpu
        } else {
            UiMainMenuCursorPos::GameExit
        }
    }

    /// The entry one step down (`ascending`) or up, wrapping around at both ends.
    pub open spec fn step(self, ascending: bool) -> UiMainMenuCursorPos {
        if ascending {
            Self::at_index(self.index() + 1)
        } else {
            Self::at_index(self.index() + 3)
        }
    }

    /// Vertical offset of the entry in the menu layout.
    pub open spec fn local_y(self) -> int {
        match self {
            UiMainMenuCursorPos::Game1Player => 0,
            UiMainMenuCursorPos::Game2Player2 => -100,
            UiMainMenuCursorPos::GameCpuVCpu => -200,
            UiMainMenuCursorPos::GameExit => -350,
        }
    }

    pub fn next_pos(&self, ascending: bool) -> (r: UiMainMenuCursorPos)
        ensures
            r == self.step(ascending),
    {
        if ascending {
            match self {
                UiMainMenuCursorPos::Game1Player => UiMainMenuCursorPos::Game2Player2,
                UiMainMenuCursorPos::Game2Player2 => UiMainMenuCursorPos::GameCpuVCpu,
                UiMainMenuCursorPos::GameCpuVCpu => UiMainMenuCursorPos::GameExit,
                UiMainMenuCursorPos::GameExit => UiMainMenuCursorPos::Game1Player,
            }
        } else {
            match self {
                UiMainMenuCursorPos::Game1Player => UiMainMenuCursorPos::GameExit,
                UiMainMenuCursorPos::Game2Player2 => UiMainMenuCursorPos::Game1Player,
                UiMainMenuCursorPos::GameCpuVCpu => UiMainMenuCursorPos::Game2Player2,
                UiMainMenuCursorPos::GameExit => UiMainMenuCursorPos::GameCpuVCpu,
            }
        }
    }

    pub fn get_local_y(&self) -> (r: i32)
        ensures
            r == self.local_y(),
    {
        match self {
            UiMainMenuCursorPos::Game1Player => 0,
            UiMainMenuCursorPos::Game2Player2 => -100,
            UiMainMenuCursorPos::GameCpuVCpu => -200,
            UiMainMenuCursorPos::GameExit => -350,
        }
    }
}

/// Moving one step down and then one step up comes back to the same entry,
/// and so does the reverse.
pub proof fn lemma_next_pos_round_trip(p: UiMainMenuCursorPos, ascending: bool)
    ensures
        p.step(ascending).step(!ascending) == p,
{
}

/// Stepping through the whole menu in one direction comes back to the start.
pub proof fn lemma_next_pos_cycle(p: UiMainMenuCursorPos, ascending: bool)
    ensures
        p.step(ascending).step(ascending).step(ascending).step(ascending) == p,
{
}

/// The cursor component of the main menu: which entry is selected.
#[derive(Clone, Copy, Debug, PartialEq, Eq, Structural)]
pub struct UiCursorMovementComp {
    pub current_pos: UiMainMenuCursorPos,
}

impl UiCursorMovementComp {
    pub fn set_pos(&mut self, new_pos: UiMainMenuCursorPos)
        ensures
            final(self).current_pos == new_pos,
    {
        self.current_pos = new_pos;
    }

    pub fn advance_pos(&mut self, direction: bool)
        ensures
            final(self).current_pos == old(self).current_pos.step(direction),
    {
        self.current_pos = self.current_pos.next_pos(direction);
    }
}

impl Default for UiCursorMovementComp {
    fn default() -> (r: UiCursorMovementComp)
        ensures
            r.current_pos == UiMainMenuCursorPos::Game1Player,
    {
        UiCursorMovementComp { current_pos: UiMainMenuCursorPos::Game1Player }
    }
}

} // verus!
