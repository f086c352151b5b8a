//! The events an element reports, as bits of a mask.
use vstd::prelude::*;

verus! {

/// A click, as a press.
pub const CLICK: u32 = 1;

/// Typing, as the new text, or a new value on a range.
pub const INPUT: u32 = 2;

/// A change: of a checkbox, of what is selected, or of a value that settled.
pub const CHANGE: u32 = 4;

/// Getting and losing the focus.
pub const FOCUS: u32 = 8;

/// The enter key.
pub const SUBMIT: u32 = 16;

/// A new size.
pub const RESIZE: u32 = 32;

/// Scrolling.
pub const SCROLL: u32 = 64;

/// A press that is let go where it began, as a tap.
pub const POINTER: u32 = 128;

/// A drag.
pub const DRAG: u32 = 256;

/// Edits of rich text, and where its selection is.
pub const EDITABLE: u32 = 512;

/// The state of a player.
pub const MEDIA: u32 = 1024;

/// What a slider reports.
pub const SLIDER: u32 = INPUT + CHANGE;

/// What a text field reports.
pub const FIELD: u32 = INPUT + FOCUS + SUBMIT;

/// What a text area reports.
pub const AREA: u32 = INPUT + FOCUS;

} // verus!
