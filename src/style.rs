//! Capability flags negotiated with the server and per-character feedback.

use vstd::prelude::*;

verus! {

/// The input-style bit that enables the pre-edit callbacks.
pub const PREEDIT_CALLBACKS_BIT: u32 = 0x0002;

/// How the input method integrates with the application.
#[derive(Clone, Copy, Debug, PartialEq, Eq, Structural)]
pub struct InputStyle {
    pub bits: u32,
}

impl InputStyle {
    /// Let the input method compose internally and only hand over the
    /// committed string.
    pub fn default_style() -> (r: InputStyle)
        ensures
            r.bits == 0,
    {
        InputStyle { bits: 0 }
    }

    /// Ask for the pre-edit callbacks, so that the text being composed can be
    /// shown inside the application.
    pub fn preedit_callbacks() -> (r: InputStyle)
        ensures
            r.bits == PREEDIT_CALLBACKS_BIT,
    {
        InputStyle { bits: PREEDIT_CALLBACKS_BIT }
    }

    /// The raw flag value sent to the server.
    pub fn bits(&self) -> (r: u32)
        ensures
            r == self.bits,
    {
        self.bits
    }

    pub open spec fn has_preedit_callbacks(self) -> bool {
        self.bits & PREEDIT_CALLBACKS_BIT != 0
    }

    /// Whether the pre-edit callbacks are enabled.
    pub fn contains_preedit_callbacks(&self) -> (r: bool)
        ensures
            r == self.has_preedit_callbacks(),
    {
        self.bits & PREEDIT_CALLBACKS_BIT != 0
    }
}

/// Rendering hints that the server attaches to each pre-edit character.
#[derive(Clone, Copy, Debug, PartialEq, Eq, Structural)]
pub struct InputFeedback {
    pub bits: u32,
}

/// Draw normally.
pub const FEEDBACK_DEFAULT: u32 = 0;
/// Swap foreground and background.
pub const FEEDBACK_REVERSE: u32 = 0x0001;
/// Underline.
pub const FEEDBACK_UNDERLINE: u32 = 0x0002;
/// Highlight, distinct from reverse and underline.
pub const FEEDBACK_HIGHLIGHT: u32 = 0x0004;
/// Primary highlight.
pub const FEEDBACK_PRIMARY: u32 = 0x0020;
/// Secondary highlight.
pub const FEEDBACK_SECONDARY: u32 = 0x0040;
/// Tertiary highlight.
pub const FEEDBACK_TERTIARY: u32 = 0x0080;
/// Show forward from the caret.
pub const FEEDBACK_VISIBLE_TO_FORWARD: u32 = 0x0100;
/// Show backward from the caret.
pub const FEEDBACK_VISIBLE_TO_BACKWORD: u32 = 0x0200;
/// Show with the caret centred.
pub const FEEDBACK_VISIBLE_TO_CENTER: u32 = 0x0400;

impl InputFeedback {
    /// The feedback value of one pre-edit character.
    pub fn from_bits(bits: u32) -> (r: InputFeedback)
        ensures
            r.bits == bits,
    {
        InputFeedback { bits }
    }

    pub open spec fn spec_contains(self, other: InputFeedback) -> bool {
        self.bits & other.bits == other.bits
    }

    /// Whether every hint of `other` is set in `self`.
    pub fn contains(&self, other: InputFeedback) -> (r: bool)
        ensures
            r == self.spec_contains(other),
    {
        self.bits & other.bits == other.bits
    }
}

} // verus!
