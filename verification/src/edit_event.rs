//! What the user did, and where the caret is, between two state checks.

use vstd::prelude::*;

use crate::clock::Instant;

verus! {

/// One state check as the tracking of editing modes sees it.
#[derive(Debug, Clone, Copy, PartialEq, Eq, Structural)]
pub struct EditEvent {
    /// When the check was made.
    pub now: Instant,
    /// The application shows a caret.
    pub has_caret: bool,
    /// The caret belongs to a native edit or search control.
    pub native_edit_focus: bool,
    pub t_pressed: bool,
    pub b_pressed: bool,
    /// `V` was pressed without `Ctrl`: the move tool, not a paste.
    pub v_tool_pressed: bool,
    pub escape_pressed: bool,
    pub enter_pressed: bool,
    pub ctrl_active: bool,
    /// The left button was pressed since the last check.
    pub left_pressed: bool,
    /// One of these presses completed a double click.
    pub double_click: bool,
    /// The left button was pressed while the pointer was the standard arrow.
    pub standard_arrow: bool,
    /// The left button was pressed while the pointer was a text cursor.
    pub text_cursor: bool,
    /// The handle of the pointer's current shape.
    pub cursor: Option<isize>,
    /// That shape is the standard arrow.
    pub cursor_is_arrow: bool,
    /// That shape is a system text cursor.
    pub cursor_is_text: bool,
}

} // verus!
