//! A cursor that moves over a list of positions, each naming the option it points at.
use vstd::prelude::*;
use crate::audio::SoundType;
use crate::effects::UiGlowingComp;
use vstd::arithmetic::div_mod::{lemma_mod_add_multiples_vanish, lemma_mod_self_0, lemma_small_mod};

verus! {

/// The index one step down (`direction`) or up from `i` among `len` positions,
/// wrapping around at both ends.
pub open spec fn wrapped_step(i: int, len: int, direction: bool) -> int {
    if direction {
        (i + 1) % len
    } else {
        (i + len - 1) % len
    }
}

/// `wrapped_step` without the remainder: one more, or back to the first
/// after the last; one less, or on to the last before the first.
pub proof fn lemma_wrapped_step_value(i: int, len: int, direction: bool)
    requires
        0 <= i < len,
    ensures
        wrapped_step(i, len, direction) == if direction {
            if i < len - 1 { i + 1 } else { 0 }
        } else {
            if i > 0 { i - 1 } else { len - 1 }
        },
{
    if direction {
        if i < len - 1 {
            lemma_small_mod((i + 1) as nat, len as nat);
        } else {
            lemma_mod_self_0(len);
        }
    } else {
        if i > 0 {
            lemma_mod_add_multiples_vanish(i - 1, len);
            lemma_small_mod((i - 1) as nat, len as nat);
        } else {
            lemma_small_mod((len - 1) as nat, len as nat);
        }
    }
}

/// Stepping down and then up (or up and then down) comes back to the same index.
pub proof fn lemma_wrapped_step_round_trip(i: int, len: int, direction: bool)
    requires
        0 <= i < len,
    ensures
        wrapped_step(wrapped_step(i, len, direction), len, !direction) == i,
{
    lemma_wrapped_step_value(i, len, direction);
    lemma_wrapped_step_value(wrapped_step(i, len, direction), len, !direction);
}

/// What the cursor system does to a cursor's element this frame.
#[derive(Clone, Copy, Debug, PartialEq, Eq, Structural)]
pub struct CursorStep {
    /// The vertical coordinate to move the cursor to. When it is set, the
    /// options of the cursor's group are highlighted anew.
    pub move_to_y: Option<i32>,
    /// The sound to play.
    pub sound: Option<SoundType>,
}

pub struct UiCursorComp {
    pub group: String,
    pub current_pos: usize,
    pub pos_list: Vec<(i32, i32)>,
    pub pos_id_list: Vec<String>,
    /// Set until the cursor has been placed for the first time.
    pub start_up: bool,
    pub freezed: bool,
}

impl UiCursorComp {
    /// At least one position, the current one among them, and one option id per position.
    pub open spec fn wf(&self) -> bool {
        &&& 0 < self.pos_list.len()
        &&& self.current_pos < self.pos_list.len()
        &&& self.pos_id_list.len() == self.pos_list.len()
    }

    /// The id of the option under the cursor.
    pub open spec fn spec_current_id(&self) -> Seq<char> {
        self.pos_id_list@[self.current_pos as int]@
    }

    /// A cursor that has not been placed yet.
    pub fn new(
        group: String,
        current_pos: usize,
        pos_list: Vec<(i32, i32)>,
        pos_id_list: Vec<String>,
        freezed: bool,
    ) -> (r: UiCursorComp)
        requires
            0 < pos_list.len(),
            current_pos < pos_list.len(),
            pos_id_list.len() == pos_list.len(),
        ensures
            r.wf(),
            r == (UiCursorComp { group, current_pos, pos_list, pos_id_list, start_up: true, freezed }),
    {
        UiCursorComp { group, current_pos, pos_list, pos_id_list, start_up: true, freezed }
    }

    pub fn set_pos(&mut self, new_pos: usize)
        requires
            old(self).wf(),
            new_pos < old(self).pos_list.len(),
        ensures
            final(self).wf(),
            *final(self) == (UiCursorComp { current_pos: new_pos, ..*old(self) }),
    {
        self.current_pos = new_pos;
    }

    /// Moves one position down (`direction`) or up, wrapping around at both ends.
    pub fn advance_pos(&mut self, direction: bool)
        requires
            old(self).wf(),
        ensures
            final(self).wf(),
            *final(self) == (UiCursorComp {
                current_pos: wrapped_step(
                    old(self).current_pos as int,
                    old(self).pos_list.len() as int,
                    direction,
                ) as usize,
                ..*old(self)
            }),
    {
        let len = self.pos_list.len();
        proof {
            lemma_wrapped_step_value(self.current_pos as int, len as int, direction);
        }
        if direction {
            if self.current_pos < len - 1 {
                self.current_pos = self.current_pos + 1;
            } else {
                self.current_pos = 0;
            }
        } else {
            if self.current_pos > 0 {
                self.current_pos = self.current_pos - 1;
            } else {
                self.current_pos = len - 1;
            }
        }
    }

    /// The id of the option under the cursor: the action it stands for.
    pub fn current_id(&self) -> (r: &String)
        requires
            self.wf(),
        ensures
            r@ == self.spec_current_id(),
    {
        &self.pos_id_list[self.current_pos]
    }

    /// The vertical coordinate of the current position.
    pub fn target_y(&self) -> (r: i32)
        requires
            self.wf(),
        ensures
            r == self.pos_list@[self.current_pos as int].1,
    {
        self.pos_list[self.current_pos].1
    }

    /// Marks the cursor as frozen once its option has been confirmed.
    pub fn freeze(&mut self)
        ensures
            *final(self) == (UiCursorComp { freezed: true, ..*old(self) }),
    {
        self.freezed = true;
    }

    /// The cursor system's rule for one frame. `at_target` tells whether the
    /// cursor's element already stands at the current position's vertical
    /// coordinate. The cursor is moved when it does not, and on its first
    /// frame; each move but the first is heard.
    pub fn step(&mut self, at_target: bool) -> (r: CursorStep)
        requires
            old(self).wf(),
        ensures
            final(self).wf(),
            !at_target || old(self).start_up ==> {
                &&& r.move_to_y == Some(old(self).pos_list@[old(self).current_pos as int].1)
                &&& r.sound == if old(self).start_up {
                    None::<SoundType>
                } else {
                    Some(SoundType::CursorTick)
                }
                &&& *final(self) == (UiCursorComp { start_up: false, ..*old(self) })
            },
            at_target && !old(self).start_up ==> {
                &&& r == (CursorStep { move_to_y: None, sound: None })
                &&& *final(self) == *old(self)
            },
    {
        if !at_target || self.start_up {
            let y = self.target_y();
            let sound = if self.start_up {
                self.start_up = false;
                None
            } else {
                Some(SoundType::CursorTick)
            };
            CursorStep { move_to_y: Some(y), sound }
        } else {
            CursorStep { move_to_y: None, sound: None }
        }
    }
}

/// Moving the cursor down and then up (or up and then down) puts it back where it was.
pub proof fn lemma_advance_round_trip(c: UiCursorComp, direction: bool)
    requires
        c.wf(),
    ensures
        wrapped_step(
            wrapped_step(c.current_pos as int, c.pos_list.len() as int, direction),
            c.pos_list.len() as int,
            !direction,
        ) == c.current_pos,
{
    lemma_wrapped_step_round_trip(c.current_pos as int, c.pos_list.len() as int, direction);
}

/// How an option shows that the cursor points at it.
#[derive(Clone, Copy, Debug, PartialEq, Eq, Structural)]
pub enum UiCursorOptionStyle {
    Glowing,
}

impl Default for UiCursorOptionStyle {
    fn default() -> (r: UiCursorOptionStyle)
        ensures
            r == UiCursorOptionStyle::Glowing,
    {
        UiCursorOptionStyle::Glowing
    }
}

/// An option that a cursor of the same group can point at.
pub struct UiCursorOptionComp {
    pub group: String,
    pub id: String,
    pub style: UiCursorOptionStyle,
}

impl UiCursorOptionComp {
    pub fn new(group: String, id: String, style: UiCursorOptionStyle) -> (r: UiCursorOptionComp)
        ensures
            r == (UiCursorOptionComp { group, id, style }),
    {
        UiCursorOptionComp { group, id, style }
    }

    /// After the cursor moved: an option of the cursor's group glows exactly
    /// when the cursor points at it; an option of another group is left alone.
    pub fn highlight(&self, cursor: &UiCursorComp, glowing: &mut UiGlowingComp)
        requires
            cursor.wf(),
        ensures
            self.group@ == cursor.group@ ==> *final(glowing) == (UiGlowingComp {
                is_glowing: self.id@ == cursor.spec_current_id(),
                ..*old(glowing)
            }),
            self.group@ != cursor.group@ ==> *final(glowing) == *old(glowing),
    {
        if self.group == cursor.group {
            match self.style {
                UiCursorOptionStyle::Glowing => {
                    glowing.is_glowing = self.id == *cursor.current_id();
                },
            }
        }
    }
}

} // verus!
