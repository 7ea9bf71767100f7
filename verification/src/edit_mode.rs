//! Whether the application in front is in a mode in which text is edited,
//! followed over the state checks from keys, clicks, pointer and caret.

use vstd::prelude::*;

use crate::clicks;
use crate::clicks::{ClickQueue, ClickSample, LastClick};
use crate::clock;
use crate::clock::Instant;
use crate::design_mode;
use crate::design_mode::{CursorMemory, CursorModel, DesignModel, DesignSession, DesignState};
use crate::edit_event::EditEvent;
use crate::office_mode;
use crate::office_mode::OfficeSession;
use crate::processes;
use crate::text;
use std::collections::HashMap;

verus! {

/// Time in milliseconds for which a paste may withdraw the caret.
pub const PASTE_CARET_GRACE_MS: u64 = 3000;

/// Time in milliseconds for which a click with a text cursor stands in for the caret in a chat.
pub const CHAT_INPUT_MS: u64 = 600;

/// Asynchronous states of the watched keys.
#[derive(Debug, Clone, Copy, PartialEq, Eq, Structural)]
pub struct KeyStates {
    pub t: u16,
    pub b: u16,
    pub escape: u16,
    pub enter: u16,
    pub left: u16,
    pub v: u16,
    pub ctrl: u16,
}

/// The keys that were down at the last check.
#[derive(Debug, Clone, Copy, PartialEq, Eq, Structural)]
pub struct KeysDown {
    pub t: bool,
    pub b: bool,
    pub escape: bool,
    pub enter: bool,
    pub left: bool,
    pub v: bool,
}

/// The pointer's shape.
#[derive(Debug, Clone, Copy, PartialEq, Eq, Structural)]
pub struct PointerShape {
    pub handle: Option<isize>,
    pub is_standard_arrow: bool,
    pub is_text: bool,
}

/// What was sampled for one state check.
pub struct InputSample {
    pub now: Instant,
    pub keys: KeyStates,
    /// A press of `Esc` was caught between the checks.
    pub escape_latched: bool,
    /// Where the pointer is, when that is known.
    pub pointer: Option<(i32, i32)>,
    pub shape: PointerShape,
    /// The class of the focused window, when it has one.
    pub focused_class: Option<String>,
    /// The class of the window that owns the caret, when there is one.
    pub caret_class: Option<String>,
}

/// The editing modes of the applications, as far as they have been seen.
pub struct EditTracker {
    keys_down: KeysDown,
    last_left_click: LastClick,
    input_double_click: bool,
    design: Option<DesignSession>,
    text_cursors: CursorMemory,
    office: Option<OfficeSession>,
    paste_started: HashMap<u32, Instant>,
    pending_chat_inputs: HashMap<u32, Instant>,
}

/// The mathematical content of an [`EditTracker`].
#[verifier::ext_equal]
pub struct EditModel {
    /// The keys that were down at the last check.
    pub keys_down: KeysDown,
    /// The click that a following one may complete to a double click.
    pub last_left_click: LastClick,
    /// The last check saw a double click.
    pub input_double_click: bool,
    /// The design application in front, if one is.
    pub design: Option<DesignModel>,
    /// Shapes of the pointer known to mean text.
    pub text_cursors: CursorModel,
    /// The office application in front, if one is.
    pub office: Option<OfficeSession>,
    /// When a paste began, by process.
    pub paste_started: Map<u32, Instant>,
    /// When a chat was last clicked with a text cursor, by process.
    pub pending_chat_inputs: Map<u32, Instant>,
}

impl View for EditTracker {
    type V = EditModel;

    closed spec fn view(&self) -> EditModel {
        EditModel {
            keys_down: self.keys_down,
            last_left_click: self.last_left_click,
            input_double_click: self.input_double_click,
            design: design_mode::opt_session(self.design),
            text_cursors: self.text_cursors@,
            office: self.office,
            paste_started: self.paste_started@,
            pending_chat_inputs: self.pending_chat_inputs@,
        }
    }
}

/// Nothing has been seen yet.
pub open spec fn initial_edit_model() -> EditModel {
    EditModel {
        keys_down: KeysDown {
            t: false,
            b: false,
            escape: false,
            enter: false,
            left: false,
            v: false,
        },
        last_left_click: None,
        input_double_click: false,
        design: None,
        text_cursors: CursorModel { process_id: 0, handles: Set::empty() },
        office: None,
        paste_started: Map::empty(),
        pending_chat_inputs: Map::empty(),
    }
}

/// The key was pressed since the last check: the system says so, or it is down
/// and was not down before. The first catches a press that fell between checks.
pub open spec fn pressed(state: u16, was_down: bool) -> bool {
    clicks::key_was_pressed(state) || (clicks::key_is_down(state) && !was_down)
}

pub open spec fn keys_down_now(keys: KeyStates) -> KeysDown {
    KeysDown {
        t: clicks::key_is_down(keys.t),
        b: clicks::key_is_down(keys.b),
        escape: clicks::key_is_down(keys.escape),
        enter: clicks::key_is_down(keys.enter),
        left: clicks::key_is_down(keys.left),
        v: clicks::key_is_down(keys.v),
    }
}

/// `Ctrl` is down, or was pressed since the last check.
pub open spec fn ctrl_active(keys: KeyStates) -> bool {
    clicks::key_is_down(keys.ctrl) || clicks::key_was_pressed(keys.ctrl)
}

/// A window class of edit, rich edit or search controls.
pub open spec fn edit_like_class(class: Option<Seq<char>>) -> bool {
    class matches Some(name) && (text::contains_ignoring_ascii_case(name, "edit"@)
        || text::contains_ignoring_ascii_case(name, "search"@))
}

pub open spec fn opt_string(s: Option<String>) -> Option<Seq<char>> {
    match s {
        Some(t) => Some(t@),
        None => None,
    }
}

/// The clicks of a check: those that were kept for the process, or else the
/// press that the check itself noticed, at the pointer.
pub open spec fn check_clicks(
    was_down: bool,
    queued: Seq<ClickSample>,
    process_id: u32,
    sample: InputSample,
) -> Seq<ClickSample> {
    let kept = clicks::current_clicks(queued, process_id, sample.now);
    match sample.pointer {
        Some((x, y)) => if kept.len() == 0 && pressed(sample.keys.left, was_down) {
            seq![ClickSample { at: sample.now, process_id, x, y }]
        } else {
            kept
        },
        None => kept,
    }
}

/// The check as the tracking of editing modes sees it.
pub open spec fn event_of(
    m: EditModel,
    queued: Seq<ClickSample>,
    process_id: u32,
    has_caret: bool,
    sample: InputSample,
) -> EditEvent {
    let keys = sample.keys;
    let down = m.keys_down;
    let made = check_clicks(down.left, queued, process_id, sample);
    let ctrl = ctrl_active(keys);
    let left = made.len() > 0;
    EditEvent {
        now: sample.now,
        has_caret,
        native_edit_focus: has_caret && (edit_like_class(opt_string(sample.focused_class))
            || edit_like_class(opt_string(sample.caret_class))),
        t_pressed: pressed(keys.t, down.t),
        b_pressed: pressed(keys.b, down.b),
        v_tool_pressed: pressed(keys.v, down.v) && !ctrl,
        escape_pressed: sample.escape_latched || pressed(keys.escape, down.escape),
        enter_pressed: pressed(keys.enter, down.enter),
        ctrl_active: ctrl,
        left_pressed: left,
        double_click: clicks::has_double_click(m.last_left_click, made),
        standard_arrow: left && sample.shape.is_standard_arrow,
        text_cursor: left && (sample.shape.is_text || design_mode::handle_in(
            sample.shape.handle,
            m.text_cursors.known(process_id),
        )),
        cursor: sample.shape.handle,
        cursor_is_arrow: sample.shape.is_standard_arrow,
        cursor_is_text: sample.shape.is_text,
    }
}

/// The pastes that may still withdraw the caret.
pub open spec fn recent_pastes(started: Map<u32, Instant>, now: Instant) -> Map<u32, Instant> {
    started.restrict(
        Set::new(
            |process_id: u32|
                started.contains_key(process_id) && clock::elapsed(started[process_id], now)
                    <= clock::millis(PASTE_CARET_GRACE_MS as int),
        ),
    )
}

/// The model after keys, pastes and clicks of a check have been read.
pub open spec fn input_read(
    m: EditModel,
    queued: Seq<ClickSample>,
    name: Seq<char>,
    process_id: u32,
    sample: InputSample,
) -> EditModel {
    let made = check_clicks(m.keys_down.left, queued, process_id, sample);
    let pasting = ctrl_active(sample.keys) && pressed(sample.keys.v, m.keys_down.v)
        && processes::listed(name, processes::TRANSIENT_CARET_APPS@);
    let started = if pasting {
        m.paste_started.insert(process_id, sample.now)
    } else {
        m.paste_started
    };
    EditModel {
        keys_down: keys_down_now(sample.keys),
        last_left_click: clicks::last_click_after(m.last_left_click, made),
        input_double_click: clicks::has_double_click(m.last_left_click, made),
        paste_started: recent_pastes(started, sample.now),
        ..m
    }
}

/// The clicks with a text cursor in chats, after the check `e`.
pub open spec fn chat_clicked(
    pending: Map<u32, Instant>,
    process_id: u32,
    e: EditEvent,
) -> Map<u32, Instant> {
    if !e.left_pressed {
        pending
    } else if e.text_cursor {
        pending.insert(process_id, e.now)
    } else {
        pending.remove(process_id)
    }
}

/// A recent click with a text cursor stands in for the caret that has not come yet.
pub open spec fn chat_input_expected(
    pending: Map<u32, Instant>,
    process_id: u32,
    now: Instant,
) -> bool {
    pending.contains_key(process_id) && clock::elapsed(pending[process_id], now) <= clock::millis(
        CHAT_INPUT_MS as int,
    )
}

/// The model after a check of the application `name`, and whether it is in a
/// mode in which text is edited.
pub open spec fn edit_outcome(
    m: EditModel,
    queued: Seq<ClickSample>,
    name: Seq<char>,
    process_id: u32,
    has_caret: bool,
    sample: InputSample,
) -> (EditModel, bool) {
    if process_id == 0 {
        (
            EditModel {
                keys_down: keys_down_now(sample.keys),
                input_double_click: false,
                ..m
            },
            false,
        )
    } else {
        mode_outcome(
            input_read(m, queued, name, process_id, sample),
            name,
            process_id,
            event_of(m, queued, process_id, has_caret, sample),
        )
    }
}

/// The model and the mode after the check `e`, by the kind of application.
pub open spec fn mode_outcome(
    m: EditModel,
    name: Seq<char>,
    process_id: u32,
    e: EditEvent,
) -> (EditModel, bool) {
    if processes::listed(name, processes::DESIGN_TEXT_SHORTCUT_APPS@) {
        let before = DesignState {
            session: design_mode::session_for(m.design, process_id),
            text_cursors: m.text_cursors.known(process_id),
            last_click: m.last_left_click,
        };
        let (after, editing) = design_mode::design_outcome(before, e);
        (
            EditModel {
                design: Some(after.session),
                text_cursors: CursorModel { process_id, handles: after.text_cursors },
                last_left_click: after.last_click,
                office: None,
                ..m
            },
            editing,
        )
    } else if processes::listed(name, processes::OFFICE_EDIT_APPS@) {
        let spreadsheet = processes::listed(name, processes::OFFICE_SPREADSHEET_APPS@);
        let after = office_mode::office_outcome(
            office_mode::office_session_for(m.office, process_id),
            e,
            spreadsheet,
        );
        (
            EditModel {
                design: None,
                office: Some(after),
                last_left_click: office_mode::office_last_click(
                    m.last_left_click,
                    e,
                    spreadsheet,
                ),
                ..m
            },
            after.editing,
        )
    } else if processes::listed(name, processes::TRANSIENT_CARET_APPS@) {
        let pending = chat_clicked(m.pending_chat_inputs, process_id, e);
        (
            EditModel { design: None, office: None, pending_chat_inputs: pending, ..m },
            e.has_caret || chat_input_expected(pending, process_id, e.now),
        )
    } else {
        (EditModel { design: None, office: None, ..m }, false)
    }
}

/// The clicks that are kept after a check: it takes all of them, unless there is
/// no process in front.
pub open spec fn clicks_left(queued: Seq<ClickSample>, process_id: u32) -> Seq<ClickSample> {
    if process_id == 0 {
        queued
    } else {
        Seq::empty()
    }
}

/// Whether `class_name` is a window class of edit, rich edit or search controls.
pub fn window_class_is_edit_like(class_name: &Option<String>) -> (yes: bool)
    ensures
        yes == edit_like_class(opt_string(*class_name)),
{
    match class_name {
        Some(name) => text::contains_ignore_ascii_case(name.as_str(), "edit")
            || text::contains_ignore_ascii_case(name.as_str(), "search"),
        None => false,
    }
}

fn key_pressed(state: u16, was_down: bool) -> (yes: bool)
    ensures
        yes == pressed(state, was_down),
{
    let (down, since_last) = clicks::key_sample(state);
    since_last || (down && !was_down)
}

fn key_down(state: u16) -> (yes: bool)
    ensures
        yes == clicks::key_is_down(state),
{
    let (down, _) = clicks::key_sample(state);
    down
}

/// Drops the pastes that can no longer withdraw the caret.
fn drop_old_pastes(started: &mut HashMap<u32, Instant>, now: Instant)
    ensures
        final(started)@ == recent_pastes(old(started)@, now),
{
    let ghost all = started@;
    let mut ids: Vec<u32> = Vec::new();
    for key in it: started.keys()
        invariant
            started@ == all,
            ids@ == it.seq().unref().take(it.index() as int),
            it.seq().unref().to_set() == all.dom(),
            it.index() == it.seq().len() ==> ids@.to_set() == all.dom(),
    {
        ids.push(*key);
        assert(ids@ =~= it.seq().unref().take(it.index() + 1));
        assert(it.seq().unref().take(it.seq().len() as int) =~= it.seq().unref());
    }
    assert(ids@.skip(0) =~= ids@);
    assert forall|k: u32| #[trigger] all.contains_key(k) implies ids@.contains(k) by {
        assert(ids@.to_set().contains(k));
    }
    let mut i: usize = 0;
    while i < ids.len()
        invariant
            i <= ids.len(),
            ids@.to_set() == all.dom(),
            forall|k: u32| #[trigger]
                started@.contains_key(k) ==> all.contains_key(k) && started@[k] == all[k] && (
                clock::elapsed(all[k], now) <= clock::millis(PASTE_CARET_GRACE_MS as int)
                    || ids@.skip(i as int).contains(k)),
            forall|k: u32| #[trigger]
                all.contains_key(k) && clock::elapsed(all[k], now) <= clock::millis(
                    PASTE_CARET_GRACE_MS as int,
                ) ==> started@.contains_key(k),
        decreases ids.len() - i,
    {
        let id = ids[i];
        let ghost rest = ids@.skip(i as int);
        let ghost before = started@;
        assert(ids@.to_set().contains(id));
        assert(rest[0] == id);
        let mut old_one = false;
        if let Some(at) = started.get(&id) {
            old_one = !now.duration_since(*at).at_most(PASTE_CARET_GRACE_MS);
        }
        if old_one {
            let _ = started.remove(&id);
        }
        i += 1;
        proof {
            assert(rest.drop_first() =~= ids@.skip(i as int));
            assert forall|k: u32| k != id implies rest.contains(k) == ids@.skip(
                i as int,
            ).contains(k) by {
                if rest.contains(k) {
                    let j = choose|j: int| 0 <= j < rest.len() && rest[j] == k;
                    assert(ids@.skip(i as int)[j - 1] == k);
                }
                if ids@.skip(i as int).contains(k) {
                    let j = choose|j: int|
                        0 <= j < ids@.skip(i as int).len() && ids@.skip(i as int)[j] == k;
                    assert(rest[j + 1] == k);
                }
            }
        }
    }
    assert(started@ =~= recent_pastes(all, now));
}

impl EditTracker {
    pub fn new() -> (tracker: EditTracker)
        ensures
            tracker@ == initial_edit_model(),
    {
        EditTracker {
            keys_down: KeysDown {
                t: false,
                b: false,
                escape: false,
                enter: false,
                left: false,
                v: false,
            },
            last_left_click: None,
            input_double_click: false,
            design: None,
            text_cursors: CursorMemory::new(),
            office: None,
            paste_started: HashMap::new(),
            pending_chat_inputs: HashMap::new(),
        }
    }

    /// Whether the last check saw a double click.
    pub fn saw_double_click(&self) -> (yes: bool)
        ensures
            yes == self@.input_double_click,
    {
        self.input_double_click
    }

    /// When the paste began that may still withdraw the caret of `process_id`.
    pub fn paste_start(&self, process_id: u32) -> (at: Option<Instant>)
        ensures
            at == (if self@.paste_started.contains_key(process_id) {
                Some(self@.paste_started[process_id])
            } else {
                None
            }),
    {
        match self.paste_started.get(&process_id) {
            Some(at) => Some(*at),
            None => None,
        }
    }

    /// Takes the clicks of the check, and reads keys and pastes.
    fn read_input(
        &mut self,
        queue: &mut ClickQueue,
        process_name: &str,
        process_id: u32,
        has_caret: bool,
        sample: &InputSample,
    ) -> (e: EditEvent)
        requires
            process_id != 0,
        ensures
            e == event_of(old(self)@, old(queue)@, process_id, has_caret, *sample),
            final(self)@ == input_read(
                old(self)@,
                old(queue)@,
                process_name@,
                process_id,
                *sample,
            ),
            final(queue)@ == Seq::<ClickSample>::empty(),
            final(queue).wf(),
    {
        let down = self.keys_down;
        let keys = sample.keys;
        let (ctrl_now, ctrl_since_last) = clicks::key_sample(keys.ctrl);
        let ctrl = ctrl_now || ctrl_since_last;
        let v_pressed = key_pressed(keys.v, down.v);
        if ctrl && v_pressed && processes::process_matches(
            process_name,
            &processes::TRANSIENT_CARET_APPS,
        ) {
            let _ = self.paste_started.insert(process_id, sample.now);
        }
        drop_old_pastes(&mut self.paste_started, sample.now);

        let mut made = clicks::take_click_samples(queue, process_id, sample.now);
        if made.len() == 0 && key_pressed(keys.left, down.left) {
            if let Some((x, y)) = sample.pointer {
                made.push(ClickSample { at: sample.now, process_id, x, y });
            }
        }
        assert(made@ =~= check_clicks(down.left, old(queue)@, process_id, *sample));
        let left_pressed = made.len() > 0;
        let double_click = clicks::consume_click_samples(&mut self.last_left_click, made);
        self.input_double_click = double_click;
        self.keys_down = KeysDown {
            t: key_down(keys.t),
            b: key_down(keys.b),
            escape: key_down(keys.escape),
            enter: key_down(keys.enter),
            left: key_down(keys.left),
            v: key_down(keys.v),
        };
        EditEvent {
            now: sample.now,
            has_caret,
            native_edit_focus: has_caret && (window_class_is_edit_like(&sample.focused_class)
                || window_class_is_edit_like(&sample.caret_class)),
            t_pressed: key_pressed(keys.t, down.t),
            b_pressed: key_pressed(keys.b, down.b),
            v_tool_pressed: v_pressed && !ctrl,
            escape_pressed: sample.escape_latched || key_pressed(keys.escape, down.escape),
            enter_pressed: key_pressed(keys.enter, down.enter),
            ctrl_active: ctrl,
            left_pressed,
            double_click,
            standard_arrow: left_pressed && sample.shape.is_standard_arrow,
            text_cursor: left_pressed && (sample.shape.is_text || self.text_cursors.knows(
                process_id,
                sample.shape.handle,
            )),
            cursor: sample.shape.handle,
            cursor_is_arrow: sample.shape.is_standard_arrow,
            cursor_is_text: sample.shape.is_text,
        }
    }

    /// Follows the mode of an application of the kind that `process_name` is of.
    fn follow_mode(&mut self, process_name: &str, process_id: u32, e: &EditEvent) -> (editing: bool)
        ensures
            (final(self)@, editing) == mode_outcome(old(self)@, process_name@, process_id, *e),
    {
        if processes::process_matches(process_name, &processes::DESIGN_TEXT_SHORTCUT_APPS) {
            self.office = None;
            let session = self.design.take();
            let (after, editing) = design_mode::design_step(
                session,
                &mut self.text_cursors,
                &mut self.last_left_click,
                process_id,
                e,
            );
            self.design = Some(after);
            return editing;
        }
        self.design = None;
        if processes::process_matches(process_name, &processes::OFFICE_EDIT_APPS) {
            let spreadsheet = processes::process_matches(
                process_name,
                &processes::OFFICE_SPREADSHEET_APPS,
            );
            let after = office_mode::office_step(
                self.office,
                &mut self.last_left_click,
                process_id,
                spreadsheet,
                e,
            );
            self.office = Some(after);
            return after.editing;
        }
        self.office = None;
        if processes::process_matches(process_name, &processes::TRANSIENT_CARET_APPS) {
            if e.left_pressed {
                if e.text_cursor {
                    let _ = self.pending_chat_inputs.insert(process_id, e.now);
                } else {
                    let _ = self.pending_chat_inputs.remove(&process_id);
                }
            }
            let expected = match self.pending_chat_inputs.get(&process_id) {
                Some(at) => e.now.duration_since(*at).at_most(CHAT_INPUT_MS),
                None => false,
            };
            return e.has_caret || expected;
        }
        false
    }

    /// Follows a state check of the application in front, and reports whether it
    /// is in a mode in which text is edited.
    pub fn update_application_edit_mode(
        &mut self,
        queue: &mut ClickQueue,
        process_name: &str,
        process_id: u32,
        has_caret: bool,
        sample: &InputSample,
    ) -> (editing: bool)
        ensures
            (final(self)@, editing) == edit_outcome(
                old(self)@,
                old(queue)@,
                process_name@,
                process_id,
                has_caret,
                *sample,
            ),
            final(queue)@ == clicks_left(old(queue)@, process_id),
            old(queue).wf() ==> final(queue).wf(),
    {
        if process_id == 0 {
            let keys = sample.keys;
            self.input_double_click = false;
            self.keys_down = KeysDown {
                t: key_down(keys.t),
                b: key_down(keys.b),
                escape: key_down(keys.escape),
                enter: key_down(keys.enter),
                left: key_down(keys.left),
                v: key_down(keys.v),
            };
            return false;
        }
        let e = self.read_input(queue, process_name, process_id, has_caret, sample);
        self.follow_mode(process_name, process_id, &e)
    }
}

} // verus!
