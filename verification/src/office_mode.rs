//! Text editing in office applications.
//!
//! Documents and sheets are often not exposed as edit controls. A double click
//! is the clear sign that a cell, a text or a shape is being edited; a single
//! click in a sheet only selects a cell.

use vstd::prelude::*;

use crate::clicks::LastClick;
use crate::clock;
use crate::clock::Instant;
use crate::edit_event::EditEvent;

verus! {

/// Longest time in milliseconds that a click waits for the caret.
pub const OFFICE_CONFIRM_MS: u64 = 450;

/// What is known of the office application in front.
#[derive(Debug, Clone, Copy, PartialEq, Eq, Structural)]
pub struct OfficeSession {
    pub process_id: u32,
    /// Text is being edited.
    pub editing: bool,
    /// Editing has ended, and a caret that lingers does not restart it.
    pub suppressed: bool,
    /// When a click began to wait for the caret.
    pub pending: Option<Instant>,
}

/// The session to go on with: another process starts afresh.
pub open spec fn office_session_for(
    session: Option<OfficeSession>,
    process_id: u32,
) -> OfficeSession {
    if session is Some && session->0.process_id == process_id {
        session->0
    } else {
        OfficeSession { process_id, editing: false, suppressed: false, pending: None }
    }
}

/// Editing has ended.
pub open spec fn office_closed(o: OfficeSession) -> OfficeSession {
    OfficeSession { editing: false, suppressed: true, pending: None, ..o }
}

/// The state after the caret has settled what was waiting.
pub open spec fn office_settled(o: OfficeSession, e: EditEvent) -> OfficeSession {
    let o = OfficeSession { suppressed: o.suppressed && e.has_caret, ..o };
    match o.pending {
        Some(started) => if clock::elapsed(started, e.now) > clock::millis(
            OFFICE_CONFIRM_MS as int,
        ) {
            OfficeSession { pending: None, ..o }
        } else if e.has_caret {
            OfficeSession { suppressed: false, editing: true, pending: None, ..o }
        } else {
            o
        },
        None => o,
    }
}

/// The state after a click.
pub open spec fn office_clicked(
    o: OfficeSession,
    e: EditEvent,
    spreadsheet: bool,
) -> OfficeSession {
    if e.double_click {
        OfficeSession { suppressed: false, editing: true, pending: None, ..o }
    } else if spreadsheet {
        office_closed(o)
    } else if e.has_caret && !o.suppressed {
        OfficeSession { editing: true, ..o }
    } else if !e.standard_arrow {
        OfficeSession { editing: true, pending: Some(e.now), ..o }
    } else {
        OfficeSession { editing: false, suppressed: true, pending: Some(e.now), ..o }
    }
}

/// `Esc` ends editing, and so does `Enter` in a sheet.
pub open spec fn leaves_office_by_key(e: EditEvent, spreadsheet: bool) -> bool {
    e.escape_pressed || (spreadsheet && e.enter_pressed)
}

/// The state after a check; its `editing` tells whether text is being edited.
pub open spec fn office_outcome(
    o: OfficeSession,
    e: EditEvent,
    spreadsheet: bool,
) -> OfficeSession {
    let o = office_settled(o, e);
    if leaves_office_by_key(e, spreadsheet) {
        office_closed(o)
    } else if e.left_pressed {
        office_clicked(o, e, spreadsheet)
    } else if e.has_caret && !o.suppressed {
        OfficeSession { editing: true, ..o }
    } else {
        o
    }
}

/// A double click that starts editing is used up by it.
pub open spec fn office_last_click(
    last_click: LastClick,
    e: EditEvent,
    spreadsheet: bool,
) -> LastClick {
    if !leaves_office_by_key(e, spreadsheet) && e.left_pressed && e.double_click {
        None
    } else {
        last_click
    }
}

/// Follows a state check of the office application `process_id`; the `editing`
/// of the result tells whether text is being edited in it.
pub fn office_step(
    session: Option<OfficeSession>,
    last_click: &mut LastClick,
    process_id: u32,
    spreadsheet: bool,
    e: &EditEvent,
) -> (after: OfficeSession)
    ensures
        after == office_outcome(office_session_for(session, process_id), *e, spreadsheet),
        *final(last_click) == office_last_click(*old(last_click), *e, spreadsheet),
{
    let mut o = OfficeSession { process_id, editing: false, suppressed: false, pending: None };
    if let Some(s) = session {
        if s.process_id == process_id {
            o = s;
        }
    }
    if !e.has_caret {
        o.suppressed = false;
    }
    if let Some(started) = o.pending {
        if !e.now.duration_since(started).at_most(OFFICE_CONFIRM_MS) {
            o.pending = None;
        } else if e.has_caret {
            o.suppressed = false;
            o.editing = true;
            o.pending = None;
        }
    }
    if e.escape_pressed || (spreadsheet && e.enter_pressed) {
        o.editing = false;
        o.suppressed = true;
        o.pending = None;
        return o;
    }
    if e.left_pressed {
        if e.double_click {
            o.suppressed = false;
            o.editing = true;
            o.pending = None;
            *last_click = None;
        } else if spreadsheet {
            o.editing = false;
            o.suppressed = true;
            o.pending = None;
        } else if e.has_caret && !o.suppressed {
            o.editing = true;
        } else if !e.standard_arrow {
            o.editing = true;
            o.pending = Some(e.now);
        } else {
            o.editing = false;
            o.suppressed = true;
            o.pending = Some(e.now);
        }
    } else if e.has_caret && !o.suppressed {
        o.editing = true;
    }
    o
}

} // verus!
