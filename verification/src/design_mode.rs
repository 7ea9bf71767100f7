//! Text editing in design applications.
//!
//! Photoshop and Illustrator draw the text cursor of the canvas themselves, so
//! no caret tells when text is being edited. Editing is followed from the keys,
//! the clicks and the shape of the pointer instead. `T` only selects the text
//! tool; editing starts with a click that places the text. Names of layers and
//! objects are edited in native controls, which do have a caret.

use vstd::prelude::*;

use crate::clicks::LastClick;
use crate::clock;
use crate::clock::{Duration, Instant};
use crate::edit_event::EditEvent;
use std::collections::HashSet;

verus! {

/// Longest time in milliseconds that a double click waits for a text cursor.
pub const CANVAS_CONFIRM_MS: u64 = 500;

/// Time in milliseconds before the pointer is trusted to have changed after a double click.
pub const CANVAS_CONFIRM_DELAY_MS: u64 = 40;

/// Longest time in milliseconds that a double click waits for a native edit control.
pub const NATIVE_CONFIRM_MS: u64 = 450;

/// Time in milliseconds after which a change of tool shows in the pointer.
pub const TOOL_CHECK_MS: u64 = 120;

/// Time in milliseconds for which the text tool stays armed after `T`.
pub const TEXT_TOOL_ARMED_MS: u64 = 2500;

/// A double click on the canvas that has not been recognised as text yet.
#[derive(Debug, Clone, Copy, PartialEq, Eq, Structural)]
pub struct PendingCanvas {
    pub started: Instant,
    /// The pointer's shape at the click.
    pub cursor: Option<isize>,
    /// That shape was the standard arrow.
    pub on_arrow: bool,
}

/// What is known of the design application in front.
pub struct DesignSession {
    process_id: u32,
    text: bool,
    tool: bool,
    native: bool,
    suppressed: bool,
    cursor: Option<isize>,
    armed_at: Option<Instant>,
    nontext_cursors: HashSet<isize>,
    pending_native: Option<Instant>,
    pending_canvas: Option<PendingCanvas>,
    pending_tool_check: Option<Instant>,
}

/// The mathematical content of a [`DesignSession`].
#[verifier::ext_equal]
pub struct DesignModel {
    /// The process that the rest speaks of.
    pub process_id: u32,
    /// Text on the canvas is being edited.
    pub text: bool,
    /// The text tool is selected.
    pub tool: bool,
    /// A native edit control is being edited.
    pub native: bool,
    /// Editing has ended, and a caret that lingers does not restart it.
    pub suppressed: bool,
    /// The pointer's shape while text was being edited.
    pub cursor: Option<isize>,
    /// When the text tool was selected with `T`.
    pub armed_at: Option<Instant>,
    /// Shapes of the pointer seen with tools other than the text tool.
    pub nontext_cursors: Set<isize>,
    /// When a double click began to wait for a native edit control.
    pub pending_native: Option<Instant>,
    /// A double click that waits for a text cursor.
    pub pending_canvas: Option<PendingCanvas>,
    /// When a change of tool during editing began to be checked.
    pub pending_tool_check: Option<Instant>,
}

impl View for DesignSession {
    type V = DesignModel;

    closed spec fn view(&self) -> DesignModel {
        DesignModel {
            process_id: self.process_id,
            text: self.text,
            tool: self.tool,
            native: self.native,
            suppressed: self.suppressed,
            cursor: self.cursor,
            armed_at: self.armed_at,
            nontext_cursors: self.nontext_cursors@,
            pending_native: self.pending_native,
            pending_canvas: self.pending_canvas,
            pending_tool_check: self.pending_tool_check,
        }
    }
}

/// Shapes of the pointer that one process used while text was being edited.
pub struct CursorMemory {
    process_id: u32,
    handles: HashSet<isize>,
}

/// The mathematical content of a [`CursorMemory`].
#[verifier::ext_equal]
pub struct CursorModel {
    pub process_id: u32,
    pub handles: Set<isize>,
}

impl View for CursorMemory {
    type V = CursorModel;

    closed spec fn view(&self) -> CursorModel {
        CursorModel { process_id: self.process_id, handles: self.handles@ }
    }
}

impl CursorModel {
    /// The shapes remembered for `process_id`.
    pub open spec fn known(self, process_id: u32) -> Set<isize> {
        if self.process_id == process_id {
            self.handles
        } else {
            Set::empty()
        }
    }
}

/// Everything that a state check of a design application reads and changes.
#[verifier::ext_equal]
pub struct DesignState {
    pub session: DesignModel,
    /// Shapes of the pointer known to mean text in this process.
    pub text_cursors: Set<isize>,
    /// The click that a following one may complete to a double click.
    pub last_click: LastClick,
}

/// Nothing is known of `process_id` yet.
pub open spec fn fresh_session(process_id: u32) -> DesignModel {
    DesignModel {
        process_id,
        text: false,
        tool: false,
        native: false,
        suppressed: false,
        cursor: None,
        armed_at: None,
        nontext_cursors: Set::empty(),
        pending_native: None,
        pending_canvas: None,
        pending_tool_check: None,
    }
}

/// The session to go on with: another process starts afresh.
pub open spec fn session_for(session: Option<DesignModel>, process_id: u32) -> DesignModel {
    match session {
        Some(d) => if d.process_id == process_id {
            d
        } else {
            fresh_session(process_id)
        },
        None => fresh_session(process_id),
    }
}

/// Editing of every kind has ended, and the text tool is laid down.
pub open spec fn closed_session(d: DesignModel) -> DesignModel {
    DesignModel {
        text: false,
        tool: false,
        native: false,
        suppressed: true,
        cursor: None,
        armed_at: None,
        ..d
    }
}

pub open spec fn with_handle(handles: Set<isize>, cursor: Option<isize>) -> Set<isize> {
    match cursor {
        Some(handle) => handles.insert(handle),
        None => handles,
    }
}

pub open spec fn handle_in(cursor: Option<isize>, handles: Set<isize>) -> bool {
    cursor matches Some(handle) && handles.contains(handle)
}

/// Text on the canvas is now being edited, and the pointer's shape is learned.
pub open spec fn text_entered(s: DesignState, e: EditEvent) -> DesignState {
    DesignState {
        session: DesignModel {
            text: true,
            tool: true,
            native: false,
            suppressed: false,
            cursor: if e.cursor is Some {
                e.cursor
            } else {
                s.session.cursor
            },
            ..s.session
        },
        text_cursors: with_handle(s.text_cursors, e.cursor),
        ..s
    }
}

/// The pointer, or a caret, tells that the double click `p` hit text. A shape
/// that is neither the arrow nor known to be another tool's counts when it
/// replaced the arrow, or stayed as it was.
pub open spec fn shows_text(s: DesignState, p: PendingCanvas, e: EditEvent) -> bool {
    let unclassified = e.cursor is Some && !e.cursor_is_arrow && !handle_in(
        e.cursor,
        s.session.nontext_cursors,
    );
    ||| e.cursor_is_text
    ||| handle_in(e.cursor, s.text_cursors)
    ||| e.has_caret
    ||| unclassified && (p.on_arrow || e.cursor == p.cursor)
}

/// A waiting double click is recognised as text, or given up.
pub open spec fn canvas_confirmed(s: DesignState, e: EditEvent) -> DesignState {
    match s.session.pending_canvas {
        Some(p) => {
            let waited = clock::elapsed(p.started, e.now);
            if waited > clock::millis(CANVAS_CONFIRM_MS as int) {
                DesignState {
                    session: DesignModel { pending_canvas: None, ..s.session },
                    ..s
                }
            } else if shows_text(s, p, e) && waited >= clock::millis(
                CANVAS_CONFIRM_DELAY_MS as int,
            ) {
                let entered = text_entered(s, e);
                DesignState {
                    session: DesignModel {
                        pending_canvas: None,
                        pending_native: None,
                        ..entered.session
                    },
                    ..entered
                }
            } else {
                s
            }
        },
        None => s,
    }
}

/// A native edit control that lost its caret has been left for good.
pub open spec fn native_lost(d: DesignModel, e: EditEvent) -> DesignModel {
    if !e.has_caret && d.native {
        DesignModel {
            native: false,
            tool: false,
            armed_at: None,
            cursor: None,
            suppressed: true,
            pending_native: None,
            pending_canvas: None,
            ..d
        }
    } else {
        d
    }
}

/// A waiting double click finds its native edit control, or is given up.
pub open spec fn native_gained(d: DesignModel, e: EditEvent) -> DesignModel {
    match d.pending_native {
        Some(started) => if clock::elapsed(started, e.now) > clock::millis(
            NATIVE_CONFIRM_MS as int,
        ) {
            DesignModel { pending_native: None, ..d }
        } else if e.native_edit_focus {
            DesignModel { suppressed: false, native: true, pending_native: None, ..d }
        } else {
            d
        },
        None => d,
    }
}

/// A pointer that changed with the tool shows that the text was left.
pub open spec fn tool_rechecked(d: DesignModel, e: EditEvent) -> DesignModel {
    match d.pending_tool_check {
        Some(started) => if clock::elapsed(started, e.now) >= clock::millis(TOOL_CHECK_MS as int) {
            if d.cursor is Some && e.cursor is Some && d.cursor != e.cursor {
                DesignModel {
                    text: false,
                    tool: false,
                    suppressed: true,
                    pending_tool_check: None,
                    ..d
                }
            } else {
                DesignModel { pending_tool_check: None, ..d }
            }
        } else {
            d
        },
        None => d,
    }
}

/// The state after what was waiting has been settled by time, caret and pointer.
pub open spec fn design_settled(s: DesignState, e: EditEvent) -> DesignState {
    let s = canvas_confirmed(s, e);
    DesignState {
        session: tool_rechecked(native_gained(native_lost(s.session, e), e), e),
        ..s
    }
}

/// The effect of the tool keys `T`, `B` and `V`.
pub open spec fn tool_keys(s: DesignState, e: EditEvent) -> DesignState {
    let d = s.session;
    let other_tool = e.b_pressed || e.v_tool_pressed;
    let learned_other = if e.standard_arrow {
        d.nontext_cursors
    } else {
        with_handle(d.nontext_cursors, e.cursor)
    };
    if e.left_pressed && !e.double_click && d.text {
        s
    } else if e.t_pressed && !e.has_caret {
        DesignState {
            session: DesignModel {
                tool: true,
                armed_at: Some(e.now),
                native: false,
                suppressed: true,
                ..d
            },
            text_cursors: if e.standard_arrow {
                s.text_cursors
            } else {
                with_handle(s.text_cursors, e.cursor)
            },
            ..s
        }
    } else if !d.text && !d.native && other_tool {
        DesignState {
            session: DesignModel {
                tool: false,
                armed_at: None,
                nontext_cursors: learned_other,
                native: false,
                suppressed: true,
                ..d
            },
            ..s
        }
    } else if d.text && other_tool {
        DesignState {
            session: DesignModel {
                nontext_cursors: learned_other,
                pending_tool_check: Some(e.now),
                ..d
            },
            ..s
        }
    } else {
        s
    }
}

/// The text tool was selected with `T` not too long ago.
pub open spec fn text_tool_armed(d: DesignModel, now: Instant) -> bool {
    d.armed_at matches Some(armed) && clock::elapsed(armed, now) <= clock::millis(
        TEXT_TOOL_ARMED_MS as int,
    )
}

/// A click on the canvas places text at once: a double click with a text cursor,
/// or a click with the armed text tool that is not on the arrow.
pub open spec fn enters_text(
    double_click: bool,
    text_tool_armed: bool,
    text_cursor: bool,
    standard_arrow: bool,
) -> bool {
    (double_click && text_cursor) || (text_tool_armed && !standard_arrow)
}

/// The effect of a click that is not on a native edit control.
pub open spec fn canvas_clicked(s: DesignState, e: EditEvent) -> DesignState {
    let d = s.session;
    if enters_text(e.double_click, text_tool_armed(d, e.now), e.text_cursor, e.standard_arrow) {
        let entered = text_entered(s, e);
        DesignState {
            session: DesignModel { armed_at: None, ..entered.session },
            last_click: None,
            ..entered
        }
    } else if e.double_click {
        DesignState {
            session: DesignModel {
                pending_canvas: Some(
                    PendingCanvas { started: e.now, cursor: e.cursor, on_arrow: e.standard_arrow },
                ),
                pending_native: Some(e.now),
                text: false,
                native: false,
                suppressed: true,
                ..d
            },
            ..s
        }
    } else if d.tool && e.text_cursor {
        DesignState {
            session: DesignModel {
                text: true,
                native: false,
                suppressed: false,
                cursor: if e.cursor is Some {
                    e.cursor
                } else {
                    d.cursor
                },
                ..d
            },
            ..s
        }
    } else {
        DesignState { session: closed_session(d), ..s }
    }
}

/// Some key ends the editing of text of any kind.
pub open spec fn leaves_by_key(e: EditEvent) -> bool {
    e.escape_pressed || (e.ctrl_active && e.enter_pressed)
}

/// The state after a check, and whether text is being edited.
pub open spec fn design_outcome(s: DesignState, e: EditEvent) -> (DesignState, bool) {
    let s = design_settled(s, e);
    let d = s.session;
    if leaves_by_key(e) {
        (
            DesignState {
                session: DesignModel { pending_canvas: None, ..closed_session(d) },
                last_click: None,
                ..s
            },
            false,
        )
    } else if e.enter_pressed && d.native {
        (DesignState { session: DesignModel { text: d.text, ..closed_session(d) }, ..s }, false)
    } else if e.left_pressed && !e.double_click && d.native && !e.native_edit_focus {
        (
            DesignState {
                session: DesignModel {
                    pending_native: None,
                    pending_canvas: None,
                    ..closed_session(d)
                },
                last_click: None,
                ..s
            },
            false,
        )
    } else if e.left_pressed && !e.double_click && d.text && e.standard_arrow {
        (
            DesignState {
                session: DesignModel { pending_tool_check: None, ..closed_session(d) },
                last_click: None,
                ..s
            },
            false,
        )
    } else {
        let s = tool_keys(s, e);
        if e.native_edit_focus {
            (
                DesignState {
                    session: DesignModel {
                        text: false,
                        tool: false,
                        armed_at: None,
                        suppressed: false,
                        native: true,
                        pending_native: None,
                        pending_canvas: None,
                        ..s.session
                    },
                    ..s
                },
                true,
            )
        } else {
            let s = if e.left_pressed {
                canvas_clicked(s, e)
            } else {
                s
            };
            (s, s.session.text || s.session.native)
        }
    }
}

/// Whether a click on the canvas places text at once.
pub fn should_enter_design_canvas_text(
    double_click: bool,
    text_tool_armed: bool,
    text_cursor: bool,
    standard_arrow: bool,
) -> (yes: bool)
    ensures
        yes == enters_text(double_click, text_tool_armed, text_cursor, standard_arrow),
{
    (double_click && text_cursor) || (text_tool_armed && !standard_arrow)
}

/// A double click that has waited for `elapsed` is recognised as text.
pub open spec fn confirms_text(elapsed: Duration, text_cursor: bool) -> bool {
    text_cursor && clock::millis(CANVAS_CONFIRM_DELAY_MS as int) <= elapsed.nanos <= clock::millis(
        CANVAS_CONFIRM_MS as int,
    )
}

/// The shape of the pointer is worth learning as a text cursor.
pub open spec fn learns_cursor(is_text_tool: bool, is_standard_arrow: bool) -> bool {
    is_text_tool && !is_standard_arrow
}

/// Whether a double click that has waited for `elapsed` is recognised as text.
pub fn should_confirm_pending_design_text(elapsed: Duration, text_cursor: bool) -> (yes: bool)
    ensures
        yes == confirms_text(elapsed, text_cursor),
{
    text_cursor && elapsed.at_least(CANVAS_CONFIRM_DELAY_MS) && elapsed.at_most(CANVAS_CONFIRM_MS)
}

/// Whether the shape of the pointer is worth learning as a text cursor.
pub fn should_learn_adobe_cursor(is_text_tool: bool, is_standard_arrow: bool) -> (yes: bool)
    ensures
        yes == learns_cursor(is_text_tool, is_standard_arrow),
{
    is_text_tool && !is_standard_arrow
}

impl CursorMemory {
    pub fn new() -> (memory: CursorMemory)
        ensures
            memory@ == (CursorModel { process_id: 0, handles: Set::empty() }),
    {
        CursorMemory { process_id: 0, handles: HashSet::new() }
    }

    /// Whether `cursor` is remembered for `process_id`.
    pub fn knows(&self, process_id: u32, cursor: Option<isize>) -> (yes: bool)
        ensures
            yes == handle_in(cursor, self@.known(process_id)),
    {
        match cursor {
            Some(handle) => self.process_id == process_id && self.handles.contains(&handle),
            None => false,
        }
    }

    /// Forgets the shapes of every process but `process_id`.
    fn retain(&mut self, process_id: u32)
        ensures
            final(self)@ == (CursorModel { process_id, handles: old(self)@.known(process_id) }),
    {
        if self.process_id != process_id {
            self.handles.clear();
            self.process_id = process_id;
        }
    }

    fn learn(&mut self, cursor: Option<isize>)
        ensures
            final(self)@ == (CursorModel {
                handles: with_handle(old(self)@.handles, cursor),
                ..old(self)@
            }),
    {
        if let Some(handle) = cursor {
            let _ = self.handles.insert(handle);
        }
    }
}

impl DesignSession {
    fn fresh(process_id: u32) -> (session: DesignSession)
        ensures
            session@ == fresh_session(process_id),
    {
        DesignSession {
            process_id,
            text: false,
            tool: false,
            native: false,
            suppressed: false,
            cursor: None,
            armed_at: None,
            nontext_cursors: HashSet::new(),
            pending_native: None,
            pending_canvas: None,
            pending_tool_check: None,
        }
    }

    fn close(&mut self)
        ensures
            final(self)@ == closed_session(old(self)@),
    {
        self.text = false;
        self.tool = false;
        self.native = false;
        self.suppressed = true;
        self.cursor = None;
        self.armed_at = None;
    }

    fn learn_other_tool(&mut self, e: &EditEvent)
        ensures
            final(self)@ == (DesignModel {
                nontext_cursors: if e.standard_arrow {
                    old(self)@.nontext_cursors
                } else {
                    with_handle(old(self)@.nontext_cursors, e.cursor)
                },
                ..old(self)@
            }),
    {
        if !e.standard_arrow {
            if let Some(handle) = e.cursor {
                let _ = self.nontext_cursors.insert(handle);
            }
        }
    }

    fn enter_text(&mut self, memory: &mut CursorMemory, e: &EditEvent)
        ensures
            forall|last_click: LastClick|
                state_of(*final(self), *final(memory), last_click) == #[trigger] text_entered(
                    state_of(*old(self), *old(memory), last_click),
                    *e,
                ),
            final(memory)@.process_id == old(memory)@.process_id,
    {
        self.tool = true;
        self.text = true;
        self.native = false;
        self.suppressed = false;
        if e.cursor.is_some() {
            self.cursor = e.cursor;
        }
        memory.learn(e.cursor);
    }

    fn confirm_canvas(&mut self, memory: &mut CursorMemory, e: &EditEvent)
        ensures
            forall|last_click: LastClick|
                state_of(*final(self), *final(memory), last_click) == #[trigger] canvas_confirmed(
                    state_of(*old(self), *old(memory), last_click),
                    *e,
                ),
            final(memory)@.process_id == old(memory)@.process_id,
    {
        if let Some(pending) = self.pending_canvas {
            let waited = e.now.duration_since(pending.started);
            let learned = match e.cursor {
                Some(handle) => memory.handles.contains(&handle),
                None => false,
            };
            let other_tool = match e.cursor {
                Some(handle) => self.nontext_cursors.contains(&handle),
                None => false,
            };
            let unclassified = e.cursor.is_some() && !e.cursor_is_arrow && !other_tool;
            let confirmed = e.cursor_is_text || learned || e.has_caret || (unclassified && (
            pending.on_arrow || same_handle(e.cursor, pending.cursor)));
            if !waited.at_most(CANVAS_CONFIRM_MS) {
                self.pending_canvas = None;
            } else if should_confirm_pending_design_text(waited, confirmed) {
                self.enter_text(memory, e);
                self.pending_canvas = None;
                self.pending_native = None;
            }
        }
    }

    fn settle(&mut self, memory: &mut CursorMemory, e: &EditEvent)
        ensures
            forall|last_click: LastClick|
                state_of(*final(self), *final(memory), last_click) == #[trigger] design_settled(
                    state_of(*old(self), *old(memory), last_click),
                    *e,
                ),
            final(memory)@.process_id == old(memory)@.process_id,
    {
        self.confirm_canvas(memory, e);
        if !e.has_caret && self.native {
            self.native = false;
            self.tool = false;
            self.armed_at = None;
            self.cursor = None;
            self.suppressed = true;
            self.pending_native = None;
            self.pending_canvas = None;
        }
        if let Some(started) = self.pending_native {
            if !e.now.duration_since(started).at_most(NATIVE_CONFIRM_MS) {
                self.pending_native = None;
            } else if e.native_edit_focus {
                self.suppressed = false;
                self.native = true;
                self.pending_native = None;
            }
        }
        if let Some(started) = self.pending_tool_check {
            if e.now.duration_since(started).at_least(TOOL_CHECK_MS) {
                if self.cursor.is_some() && e.cursor.is_some() && !same_handle(
                    self.cursor,
                    e.cursor,
                ) {
                    self.text = false;
                    self.tool = false;
                    self.suppressed = true;
                }
                self.pending_tool_check = None;
            }
        }
    }

    fn press_tool_keys(&mut self, memory: &mut CursorMemory, e: &EditEvent)
        ensures
            forall|last_click: LastClick|
                state_of(*final(self), *final(memory), last_click) == #[trigger] tool_keys(
                    state_of(*old(self), *old(memory), last_click),
                    *e,
                ),
            final(memory)@.process_id == old(memory)@.process_id,
    {
        let other_tool = e.b_pressed || e.v_tool_pressed;
        if e.left_pressed && !e.double_click && self.text {
        } else if e.t_pressed && !e.has_caret {
            self.tool = true;
            self.armed_at = Some(e.now);
            if should_learn_adobe_cursor(true, e.standard_arrow) {
                memory.learn(e.cursor);
            }
            self.native = false;
            self.suppressed = true;
        } else if !self.text && !self.native && other_tool {
            self.tool = false;
            self.armed_at = None;
            self.learn_other_tool(e);
            self.native = false;
            self.suppressed = true;
        } else if self.text && other_tool {
            self.learn_other_tool(e);
            self.pending_tool_check = Some(e.now);
        }
    }

    fn click_canvas(
        &mut self,
        memory: &mut CursorMemory,
        last_click: &mut LastClick,
        e: &EditEvent,
    )
        ensures
            state_of(*final(self), *final(memory), *final(last_click)) == canvas_clicked(
                state_of(*old(self), *old(memory), *old(last_click)),
                *e,
            ),
            final(memory)@.process_id == old(memory)@.process_id,
    {
        let armed = match self.armed_at {
            Some(at) => e.now.duration_since(at).at_most(TEXT_TOOL_ARMED_MS),
            None => false,
        };
        let ghost before = state_of(*self, *memory, *last_click);
        if should_enter_design_canvas_text(
            e.double_click,
            armed,
            e.text_cursor,
            e.standard_arrow,
        ) {
            self.enter_text(memory, e);
            assert(state_of(*self, *memory, *last_click) == text_entered(before, *e));
            self.armed_at = None;
            *last_click = None;
        } else if e.double_click {
            self.pending_canvas = Some(
                PendingCanvas { started: e.now, cursor: e.cursor, on_arrow: e.standard_arrow },
            );
            self.pending_native = Some(e.now);
            self.text = false;
            self.native = false;
            self.suppressed = true;
        } else if self.tool && e.text_cursor {
            self.text = true;
            self.native = false;
            self.suppressed = false;
            if e.cursor.is_some() {
                self.cursor = e.cursor;
            }
        } else {
            self.close();
        }
    }
}

/// The state that a check reads, out of its parts.
pub open spec fn state_of(
    session: DesignSession,
    memory: CursorMemory,
    last_click: LastClick,
) -> DesignState {
    DesignState { session: session@, text_cursors: memory@.handles, last_click }
}

fn same_handle(a: Option<isize>, b: Option<isize>) -> (same: bool)
    ensures
        same == (a == b),
{
    match (a, b) {
        (Some(x), Some(y)) => x == y,
        (None, None) => true,
        _ => false,
    }
}

pub open spec fn opt_session(session: Option<DesignSession>) -> Option<DesignModel> {
    match session {
        Some(s) => Some(s@),
        None => None,
    }
}

/// Follows a state check of the design application `process_id`, and reports
/// whether text is being edited in it.
pub fn design_step(
    session: Option<DesignSession>,
    memory: &mut CursorMemory,
    last_click: &mut LastClick,
    process_id: u32,
    e: &EditEvent,
) -> (result: (DesignSession, bool))
    ensures
        ({
            let before = DesignState {
                session: session_for(opt_session(session), process_id),
                text_cursors: old(memory)@.known(process_id),
                last_click: *old(last_click),
            };
            let (after, editing) = design_outcome(before, *e);
            &&& result.0@ == after.session
            &&& result.1 == editing
            &&& final(memory)@ == (CursorModel { process_id, handles: after.text_cursors })
            &&& *final(last_click) == after.last_click
        }),
{
    let mut d = match session {
        Some(s) => if s.process_id == process_id {
            s
        } else {
            DesignSession::fresh(process_id)
        },
        None => DesignSession::fresh(process_id),
    };
    memory.retain(process_id);
    let ghost before = state_of(d, *memory, *last_click);
    d.settle(memory, e);
    let ghost settled = state_of(d, *memory, *last_click);
    assert(settled == design_settled(before, *e));
    if e.escape_pressed || (e.ctrl_active && e.enter_pressed) {
        d.close();
        d.pending_canvas = None;
        *last_click = None;
        return (d, false);
    }
    if e.enter_pressed && d.native {
        // Enter commits the name of a layer or an object; on the canvas it is a line break.
        let text = d.text;
        d.close();
        d.text = text;
        return (d, false);
    }
    if e.left_pressed && !e.double_click && d.native && !e.native_edit_focus {
        d.close();
        d.pending_native = None;
        d.pending_canvas = None;
        *last_click = None;
        return (d, false);
    }
    if e.left_pressed && !e.double_click && d.text && e.standard_arrow {
        d.close();
        d.pending_tool_check = None;
        *last_click = None;
        return (d, false);
    }
    d.press_tool_keys(memory, e);
    assert(state_of(d, *memory, *last_click) == tool_keys(settled, *e));
    if e.native_edit_focus {
        d.text = false;
        d.tool = false;
        d.armed_at = None;
        d.suppressed = false;
        d.native = true;
        d.pending_native = None;
        d.pending_canvas = None;
        return (d, true);
    }
    if e.left_pressed {
        d.click_canvas(memory, last_click, e);
    }
    let editing = d.text || d.native;
    (d, editing)
}

} // verus!
