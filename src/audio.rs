//! The sound effects that the menu logic asks for.
use vstd::prelude::*;

verus! {

#[derive(Clone, Copy, Debug, PartialEq, Eq, Structural)]
pub enum SoundType {
    /// The cursor moved to another option.
    CursorTick,
    /// An option was confirmed.
    ButtonPush,
}

} // verus!
