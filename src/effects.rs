//! Per-frame decisions of the glowing, flashing and swinging effects.
//!
//! The waveforms themselves are evaluated by the caller; these rules say which
//! waveform applies and which colour or coordinate it is applied to.
use vstd::prelude::*;

verus! {

/// How a glowing element's colour moves around its base colour.
#[derive(Clone, Copy, Debug, PartialEq, Eq, Structural)]
pub enum UiGlowingStyle {
    /// Lightened and darkened in turn.
    TwoWays,
    /// Only lightened.
    Lightening,
    /// Only darkened.
    Darkening,
}

impl UiGlowingStyle {
    pub open spec fn offset(self) -> int {
        match self {
            UiGlowingStyle::TwoWays => 0,
            UiGlowingStyle::Lightening => 1,
            UiGlowingStyle::Darkening => -1,
        }
    }

    /// What is added to the sine wave before it is scaled by half the
    /// intensity: the glow factor is `(sin + offset) * 0.5 * intensity`, so it
    /// stays at or above zero when lightening and at or below zero when darkening.
    pub fn sine_offset(&self) -> (r: i8)
        ensures
            r == self.offset(),
    {
        match self {
            UiGlowingStyle::TwoWays => 0,
            UiGlowingStyle::Lightening => 1,
            UiGlowingStyle::Darkening => -1,
        }
    }
}

/// The same three styles, under the name used when a text is set up to pulse.
#[derive(Clone, Copy, Debug, PartialEq, Eq, Structural)]
pub enum FlashingStyle {
    TwoWays,
    Lightening,
    Darkening,
}

impl FlashingStyle {
    pub open spec fn glowing(self) -> UiGlowingStyle {
        match self {
            FlashingStyle::TwoWays => UiGlowingStyle::TwoWays,
            FlashingStyle::Lightening => UiGlowingStyle::Lightening,
            FlashingStyle::Darkening => UiGlowingStyle::Darkening,
        }
    }
}

impl From<FlashingStyle> for UiGlowingStyle {
    fn from(s: FlashingStyle) -> (r: UiGlowingStyle) {
        match s {
            FlashingStyle::TwoWays => UiGlowingStyle::TwoWays,
            FlashingStyle::Lightening => UiGlowingStyle::Lightening,
            FlashingStyle::Darkening => UiGlowingStyle::Darkening,
        }
    }
}

impl vstd::std_specs::convert::FromSpecImpl<FlashingStyle> for UiGlowingStyle {
    open spec fn obeys_from_spec() -> bool {
        true
    }

    open spec fn from_spec(s: FlashingStyle) -> UiGlowingStyle {
        s.glowing()
    }
}

/// What a glowing element shows this frame.
#[derive(Clone, Copy, Debug, PartialEq, Eq, Structural)]
pub enum GlowLook {
    /// Its base colour.
    Base,
    /// Its base colour moved by the glow factor of this sine offset.
    Glow { sine_offset: i8 },
}

/// The switch and style of a glowing element.
#[derive(Clone, Copy, Debug, PartialEq, Eq, Structural)]
pub struct UiGlowingComp {
    pub is_glowing: bool,
    pub style: UiGlowingStyle,
}

impl UiGlowingComp {
    pub fn new(is_glowing: bool, style: UiGlowingStyle) -> (r: UiGlowingComp)
        ensures
            r.is_glowing == is_glowing,
            r.style == style,
    {
        UiGlowingComp { is_glowing, style }
    }

    pub open spec fn spec_look(self) -> GlowLook {
        if self.is_glowing {
            GlowLook::Glow { sine_offset: self.style.offset() as i8 }
        } else {
            GlowLook::Base
        }
    }

    pub fn look(&self) -> (r: GlowLook)
        ensures
            r == self.spec_look(),
    {
        if self.is_glowing {
            GlowLook::Glow { sine_offset: self.style.sine_offset() }
        } else {
            GlowLook::Base
        }
    }
}

impl Default for UiGlowingComp {
    fn default() -> (r: UiGlowingComp)
        ensures
            r.is_glowing,
            r.style == UiGlowingStyle::TwoWays,
    {
        UiGlowingComp { is_glowing: true, style: UiGlowingStyle::TwoWays }
    }
}

/// What a flashing text shows this frame.
#[derive(Clone, Copy, Debug, PartialEq, Eq, Structural)]
pub enum FlashLook {
    /// Its base colour made fully transparent.
    Hidden,
    /// Its flashing colour.
    Flashing,
    /// Its base colour.
    Base,
    /// Whatever it showed before.
    Unchanged,
}

/// The switches of a flashing text.
#[derive(Clone, Copy, Debug, PartialEq, Eq, Structural)]
pub struct UiFlashingComp {
    pub is_flashing: bool,
    pub is_hiding: bool,
    pub reset_color: bool,
}

impl UiFlashingComp {
    pub fn new(is_flashing: bool, is_hiding: bool, reset_color: bool) -> (r: UiFlashingComp)
        ensures
            r == (UiFlashingComp { is_flashing, is_hiding, reset_color }),
    {
        UiFlashingComp { is_flashing, is_hiding, reset_color }
    }

    /// A hidden text stays hidden; a flashing one alternates between its
    /// flashing colour (while the wave is at or above zero) and hidden; an idle
    /// one goes back to its base colour if asked to, and is left alone otherwise.
    pub open spec fn spec_look(self, wave_on: bool) -> FlashLook {
        if self.is_hiding {
            FlashLook::Hidden
        } else if self.is_flashing {
            if wave_on {
                FlashLook::Flashing
            } else {
                FlashLook::Hidden
            }
        } else if self.reset_color {
            FlashLook::Base
        } else {
            FlashLook::Unchanged
        }
    }

    /// `wave_on` tells whether the flashing wave is at or above zero this frame.
    pub fn look(&self, wave_on: bool) -> (r: FlashLook)
        ensures
            r == self.spec_look(wave_on),
    {
        if self.is_hiding {
            FlashLook::Hidden
        } else if self.is_flashing {
            if wave_on {
                FlashLook::Flashing
            } else {
                FlashLook::Hidden
            }
        } else if self.reset_color {
            FlashLook::Base
        } else {
            FlashLook::Unchanged
        }
    }

    /// Makes the text flash.
    pub fn start_flashing(&mut self)
        ensures
            *final(self) == (UiFlashingComp { is_flashing: true, ..*old(self) }),
    {
        self.is_flashing = true;
    }

    pub fn set_status(&mut self, flash: bool, hide: bool)
        ensures
            *final(self) == (UiFlashingComp {
                is_flashing: flash,
                is_hiding: hide,
                ..*old(self)
            }),
    {
        self.is_flashing = flash;
        self.is_hiding = hide;
    }
}

/// Along which coordinate of its resting position a swinging element swings.
#[derive(Clone, Copy, Debug, PartialEq, Eq, Structural)]
pub enum UiSwingingStyle {
    Horizontal,
    Vertical,
}

impl UiSwingingStyle {
    pub open spec fn spec_base<T>(self, pos: (T, T)) -> T {
        match self {
            UiSwingingStyle::Horizontal => pos.0,
            UiSwingingStyle::Vertical => pos.1,
        }
    }

    /// The coordinate of the resting position that the swing is centred on.
    /// The swing is always written to the horizontal coordinate.
    pub fn base<T: Copy>(&self, pos: (T, T)) -> (r: T)
        ensures
            r == self.spec_base(pos),
    {
        match self {
            UiSwingingStyle::Horizontal => pos.0,
            UiSwingingStyle::Vertical => pos.1,
        }
    }
}

} // verus!
