//! What holds of the editing modes of design and office applications.

use vstd::prelude::*;

use crate::clicks;
use crate::clicks::ClickSample;
use crate::clock;
use crate::clock::{Duration, Instant};
use crate::design_mode;
use crate::design_mode::{DesignModel, DesignState};
use crate::edit_event::EditEvent;
use crate::edit_mode;
use crate::edit_mode::{EditModel, InputSample};
use crate::laws::clicking;
use crate::office_mode;
use crate::office_mode::OfficeSession;
use crate::processes;

verus! {

/// `Esc` and `Ctrl+Enter` end the editing of a design application at once.
pub proof fn leaving_keys_end_editing(s: DesignState, e: EditEvent)
    requires
        design_mode::leaves_by_key(e),
    ensures
        ({
            let (after, editing) = design_mode::design_outcome(s, e);
            !editing && !after.session.text && !after.session.native && !after.session.tool
        }),
{
}

/// Editing in a design application starts for a reason: a click, a native control,
/// or a double click before that waited for the text cursor. A caret alone is none.
pub proof fn editing_starts_for_a_reason(s: DesignState, e: EditEvent)
    requires
        !s.session.text,
        !s.session.native,
        design_mode::design_outcome(s, e).1,
    ensures
        e.left_pressed || e.native_edit_focus || s.session.pending_canvas is Some,
{
}

/// Selecting the text tool starts nothing yet.
pub proof fn the_text_tool_alone_starts_nothing(s: DesignState, e: EditEvent)
    requires
        !s.session.text,
        !s.session.native,
        s.session.pending_canvas is None,
        e.t_pressed,
        !e.left_pressed,
        !e.native_edit_focus,
    ensures
        !design_mode::design_outcome(s, e).1,
{
}

/// A click with the text tool starts editing, unless it is on the arrow.
pub proof fn a_click_with_the_text_tool_starts_editing(
    s: DesignState,
    selected: EditEvent,
    clicked: EditEvent,
)
    requires
        selected.t_pressed,
        !selected.has_caret,
        !selected.native_edit_focus,
        !selected.left_pressed,
        !design_mode::leaves_by_key(selected),
        clicked.left_pressed,
        !clicked.standard_arrow,
        !clicked.native_edit_focus,
        !clicked.b_pressed,
        !clicked.v_tool_pressed,
        !design_mode::leaves_by_key(clicked),
        clock::elapsed(selected.now, clicked.now) <= clock::millis(
            design_mode::TEXT_TOOL_ARMED_MS as int,
        ),
    ensures
        design_mode::design_outcome(design_mode::design_outcome(s, selected).0, clicked).1,
{
}

/// A double click with a text cursor starts editing.
pub proof fn a_double_click_on_text_starts_editing(s: DesignState, e: EditEvent)
    requires
        e.left_pressed,
        e.double_click,
        e.text_cursor,
        !(e.enter_pressed && design_mode::design_settled(s, e).session.native),
        !design_mode::leaves_by_key(e),
    ensures
        design_mode::design_outcome(s, e).1,
{
}

/// A single click on the arrow ends editing, where the arrow is not taken for a
/// text cursor.
pub proof fn a_click_on_the_arrow_ends_editing(s: DesignState, e: EditEvent)
    requires
        e.left_pressed,
        !e.double_click,
        e.standard_arrow,
        !e.text_cursor,
        !e.native_edit_focus,
    ensures
        !design_mode::design_outcome(s, e).1,
{
}

/// The cursors of other tools start nothing: without the text tool, a click that
/// is not with a text cursor leaves nothing being edited.
pub proof fn other_cursors_start_nothing(s: DesignState, e: EditEvent)
    requires
        e.left_pressed,
        !e.text_cursor,
        !e.native_edit_focus,
        !e.t_pressed,
        !design_mode::text_tool_armed(s.session, e.now),
    ensures
        !design_mode::design_outcome(s, e).1,
{
}

/// A native control is left as soon as its caret is gone, and a caret that comes
/// back does not reopen it.
pub proof fn a_native_control_is_left_for_good(s: DesignState, gone: EditEvent, back: EditEvent)
    requires
        s.session.native,
        !s.session.text,
        s.session.pending_canvas is None,
        !gone.has_caret,
        !gone.native_edit_focus,
        !gone.left_pressed,
        !back.native_edit_focus,
        !back.left_pressed,
    ensures
        !design_mode::design_outcome(s, gone).1,
        !design_mode::design_outcome(design_mode::design_outcome(s, gone).0, back).1,
{
}

/// The session of one process is not carried over to another.
pub proof fn another_process_starts_afresh(
    m: EditModel,
    name: Seq<char>,
    process_id: u32,
    e: EditEvent,
)
    requires
        m.design matches Some(d) ==> d.process_id != process_id,
        m.office matches Some(o) ==> o.process_id != process_id,
    ensures
        edit_mode::mode_outcome(m, name, process_id, e) == edit_mode::mode_outcome(
            EditModel { design: None, office: None, ..m },
            name,
            process_id,
            e,
        ),
{
}

/// Another kind of application in front ends the editing of design and office
/// applications.
pub proof fn leaving_an_application_ends_its_editing(
    m: EditModel,
    name: Seq<char>,
    process_id: u32,
    e: EditEvent,
)
    ensures
        ({
            let after = edit_mode::mode_outcome(m, name, process_id, e).0;
            &&& !processes::listed(name, processes::DESIGN_TEXT_SHORTCUT_APPS@)
                ==> after.design is None
            &&& processes::listed(name, processes::DESIGN_TEXT_SHORTCUT_APPS@)
                || !processes::listed(name, processes::OFFICE_EDIT_APPS@) ==> after.office is None
        }),
{
}

/// A double click starts editing in every office application.
pub proof fn a_double_click_starts_office_editing(
    o: OfficeSession,
    e: EditEvent,
    spreadsheet: bool,
)
    requires
        e.left_pressed,
        e.double_click,
        !office_mode::leaves_office_by_key(e, spreadsheet),
    ensures
        office_mode::office_outcome(o, e, spreadsheet).editing,
{
}

/// A single click in a sheet only selects a cell: it ends editing.
pub proof fn a_single_click_selects_a_cell(o: OfficeSession, e: EditEvent)
    requires
        e.left_pressed,
        !e.double_click,
    ensures
        !office_mode::office_outcome(o, e, true).editing,
{
}

/// `Esc` ends editing in every office application, and `Enter` in a sheet alone: a
/// document goes on being edited.
pub proof fn enter_ends_editing_in_sheets_only(o: OfficeSession, e: EditEvent, spreadsheet: bool)
    requires
        !e.left_pressed,
    ensures
        e.escape_pressed ==> !office_mode::office_outcome(o, e, spreadsheet).editing,
        e.enter_pressed ==> !office_mode::office_outcome(o, e, true).editing,
        o.editing && !e.escape_pressed ==> office_mode::office_outcome(o, e, false).editing,
{
}

/// Editing in an office application has ended, and a caret that lingers does not
/// restart it.
pub open spec fn left_for_good(o: OfficeSession) -> bool {
    !o.editing && o.suppressed && o.pending is None
}

/// The session after the checks `checks`, in order.
pub open spec fn after_office_checks(
    o: OfficeSession,
    checks: Seq<EditEvent>,
    spreadsheet: bool,
) -> OfficeSession
    decreases checks.len(),
{
    if checks.len() == 0 {
        o
    } else {
        office_mode::office_outcome(
            after_office_checks(o, checks.drop_last(), spreadsheet),
            checks.last(),
            spreadsheet,
        )
    }
}

/// A caret that lingers after editing has ended restarts nothing, however often it
/// is seen, as long as there is no click.
pub proof fn a_lingering_caret_restarts_nothing(
    o: OfficeSession,
    checks: Seq<EditEvent>,
    spreadsheet: bool,
)
    requires
        left_for_good(o),
        forall|i: int|
            0 <= i < checks.len() ==> (#[trigger] checks[i]).has_caret && !checks[i].left_pressed,
    ensures
        left_for_good(after_office_checks(o, checks, spreadsheet)),
    decreases checks.len(),
{
    if checks.len() > 0 {
        let before = checks.drop_last();
        assert forall|i: int| 0 <= i < before.len() implies (#[trigger] before[i]).has_caret
            && !before[i].left_pressed by {
            assert(before[i] == checks[i]);
        }
        a_lingering_caret_restarts_nothing(o, before, spreadsheet);
        assert(checks[checks.len() - 1].has_caret);
    }
}

/// Leaving by a key is for good.
pub proof fn leaving_by_key_is_for_good(o: OfficeSession, e: EditEvent, spreadsheet: bool)
    requires
        office_mode::leaves_office_by_key(e, spreadsheet),
    ensures
        left_for_good(office_mode::office_outcome(o, e, spreadsheet)),
{
}

/// The key was pressed since the last check: its state says so, or it is down and was
/// not down before.
pub open spec fn key_pressed(state: u16, was_down: bool) -> bool {
    state as int % 2 == 1 || (state >= 0x8000 && !was_down)
}

/// `Ctrl` is down or was pressed since the last check.
pub open spec fn ctrl(sample: InputSample) -> bool {
    sample.keys.ctrl as int % 2 == 1 || sample.keys.ctrl >= 0x8000
}

/// A press that falls between two checks is not missed, and a key that is held counts
/// once.
pub proof fn presses_are_not_missed(state: u16, was_down: bool)
    ensures
        edit_mode::pressed(state, was_down) <==> key_pressed(state, was_down),
{
    clicking::key_states_are_two_flags(state);
}

/// Each key of a check counts for itself. `Esc` counts also where it was caught between
/// the checks, and `V` selects a tool only without `Ctrl`.
pub proof fn each_key_counts(
    m: EditModel,
    queued: Seq<ClickSample>,
    process_id: u32,
    has_caret: bool,
    sample: InputSample,
)
    ensures
        ({
            let e = edit_mode::event_of(m, queued, process_id, has_caret, sample);
            let down = m.keys_down;
            &&& e.t_pressed == key_pressed(sample.keys.t, down.t)
            &&& e.b_pressed == key_pressed(sample.keys.b, down.b)
            &&& e.v_tool_pressed == (key_pressed(sample.keys.v, down.v) && !ctrl(sample))
            &&& e.escape_pressed == (sample.escape_latched || key_pressed(
                sample.keys.escape,
                down.escape,
            ))
            &&& e.enter_pressed == key_pressed(sample.keys.enter, down.enter)
            &&& e.ctrl_active == ctrl(sample)
            &&& e.now == sample.now
            &&& e.has_caret == has_caret
        }),
{
    presses_are_not_missed(sample.keys.t, m.keys_down.t);
    presses_are_not_missed(sample.keys.b, m.keys_down.b);
    presses_are_not_missed(sample.keys.v, m.keys_down.v);
    presses_are_not_missed(sample.keys.escape, m.keys_down.escape);
    presses_are_not_missed(sample.keys.enter, m.keys_down.enter);
    clicking::key_states_are_two_flags(sample.keys.ctrl);
}

/// The keys that are down at a check are those that were down at the next one before.
pub proof fn the_keys_that_are_down_are_remembered(
    m: EditModel,
    queued: Seq<ClickSample>,
    name: Seq<char>,
    process_id: u32,
    has_caret: bool,
    sample: InputSample,
)
    ensures
        ({
            let down = edit_mode::edit_outcome(
                m,
                queued,
                name,
                process_id,
                has_caret,
                sample,
            ).0.keys_down;
            &&& down.t == (sample.keys.t >= 0x8000)
            &&& down.b == (sample.keys.b >= 0x8000)
            &&& down.v == (sample.keys.v >= 0x8000)
            &&& down.escape == (sample.keys.escape >= 0x8000)
            &&& down.enter == (sample.keys.enter >= 0x8000)
            &&& down.left == (sample.keys.left >= 0x8000)
        }),
{
    clicking::key_states_are_two_flags(sample.keys.t);
    clicking::key_states_are_two_flags(sample.keys.b);
    clicking::key_states_are_two_flags(sample.keys.v);
    clicking::key_states_are_two_flags(sample.keys.escape);
    clicking::key_states_are_two_flags(sample.keys.enter);
    clicking::key_states_are_two_flags(sample.keys.left);
}

/// The clicks of a check are those that were kept for its process. Where there are
/// none, a press of the button that the check itself notices counts as one click at the
/// pointer.
pub proof fn a_check_has_its_clicks(
    was_down: bool,
    queued: Seq<ClickSample>,
    process_id: u32,
    sample: InputSample,
)
    ensures
        ({
            let kept = clicks::current_clicks(queued, process_id, sample.now);
            let made = edit_mode::check_clicks(was_down, queued, process_id, sample);
            &&& kept.len() > 0 ==> made == kept
            &&& kept.len() == 0 && (!key_pressed(sample.keys.left, was_down) || sample.pointer is None)
                ==> made.len() == 0
            &&& kept.len() == 0 && key_pressed(sample.keys.left, was_down) && sample.pointer is Some
                ==> {
                &&& made.len() == 1
                &&& made[0].at == sample.now
                &&& made[0].process_id == process_id
                &&& made[0].x == (sample.pointer->0).0
                &&& made[0].y == (sample.pointer->0).1
            }
        }),
{
    presses_are_not_missed(sample.keys.left, was_down);
}

/// The pointer counts for a click only where there is one, and the caret as that of a
/// native control only where there is a caret in an edit or search window.
pub proof fn the_pointer_counts_for_clicks(
    m: EditModel,
    queued: Seq<ClickSample>,
    process_id: u32,
    has_caret: bool,
    sample: InputSample,
)
    ensures
        ({
            let e = edit_mode::event_of(m, queued, process_id, has_caret, sample);
            let made = edit_mode::check_clicks(m.keys_down.left, queued, process_id, sample);
            let known = m.text_cursors.process_id == process_id && (sample.shape.handle matches Some(
                handle,
            ) && m.text_cursors.handles.contains(handle));
            &&& e.left_pressed == (made.len() > 0)
            &&& e.double_click == clicks::has_double_click(m.last_left_click, made)
            &&& e.standard_arrow == (made.len() > 0 && sample.shape.is_standard_arrow)
            &&& e.text_cursor == (made.len() > 0 && (sample.shape.is_text || known))
            &&& e.cursor == sample.shape.handle
            &&& e.cursor_is_arrow == sample.shape.is_standard_arrow
            &&& e.cursor_is_text == sample.shape.is_text
            &&& e.native_edit_focus == (has_caret && (edit_mode::edit_like_class(
                edit_mode::opt_string(sample.focused_class),
            ) || edit_mode::edit_like_class(edit_mode::opt_string(sample.caret_class))))
        }),
{
}

/// A paste is `Ctrl+V` in a chat. It is remembered for three seconds, and nothing else
/// is remembered as one.
pub proof fn pastes_are_remembered_for_their_time(
    m: EditModel,
    queued: Seq<ClickSample>,
    name: Seq<char>,
    process_id: u32,
    has_caret: bool,
    sample: InputSample,
    id: u32,
)
    requires
        process_id != 0,
    ensures
        ({
            let after = edit_mode::edit_outcome(
                m,
                queued,
                name,
                process_id,
                has_caret,
                sample,
            ).0.paste_started;
            let pasting = id == process_id && ctrl(sample) && key_pressed(
                sample.keys.v,
                m.keys_down.v,
            ) && processes::listed(name, processes::TRANSIENT_CARET_APPS@);
            &&& pasting ==> after.contains_key(id) && after[id] == sample.now
            &&& !pasting ==> (after.contains_key(id) <==> m.paste_started.contains_key(id)
                && sample.now.nanos - m.paste_started[id].nanos <= 3_000_000_000)
            &&& !pasting && after.contains_key(id) ==> after[id] == m.paste_started[id]
        }),
{
    presses_are_not_missed(sample.keys.v, m.keys_down.v);
    clicking::key_states_are_two_flags(sample.keys.ctrl);
}

/// Whether a check saw a double click is known until the next one.
pub proof fn a_double_click_is_known_until_the_next_check(
    m: EditModel,
    queued: Seq<ClickSample>,
    name: Seq<char>,
    process_id: u32,
    has_caret: bool,
    sample: InputSample,
)
    ensures
        edit_mode::edit_outcome(
            m,
            queued,
            name,
            process_id,
            has_caret,
            sample,
        ).0.input_double_click <==> process_id != 0 && clicks::has_double_click(
            m.last_left_click,
            edit_mode::check_clicks(m.keys_down.left, queued, process_id, sample),
        ),
{
}

/// Without a process in front nothing is edited, and nothing is forgotten.
pub proof fn without_a_process_nothing_is_edited(
    m: EditModel,
    queued: Seq<ClickSample>,
    name: Seq<char>,
    has_caret: bool,
    sample: InputSample,
)
    ensures
        ({
            let (after, editing) = edit_mode::edit_outcome(m, queued, name, 0, has_caret, sample);
            &&& !editing
            &&& after.design == m.design && after.office == m.office
            &&& after.text_cursors == m.text_cursors && after.paste_started == m.paste_started
            &&& after.pending_chat_inputs == m.pending_chat_inputs
        }),
        edit_mode::clicks_left(queued, 0) == queued,
{
}

/// In a chat text is edited where there is a caret, and for six tenths of a second after
/// a click with a text cursor. A click with another one ends that.
pub proof fn a_click_stands_in_for_the_caret_of_a_chat(
    m: EditModel,
    name: Seq<char>,
    process_id: u32,
    e: EditEvent,
)
    requires
        processes::listed(name, processes::TRANSIENT_CARET_APPS@),
    ensures
        ({
            let (after, editing) = edit_mode::mode_outcome(m, name, process_id, e);
            let pending = m.pending_chat_inputs;
            &&& editing <==> {
                ||| e.has_caret
                ||| e.left_pressed && e.text_cursor
                ||| !e.left_pressed && pending.contains_key(process_id) && e.now.nanos
                    - pending[process_id].nanos <= 600_000_000
            }
            &&& e.left_pressed && e.text_cursor ==> after.pending_chat_inputs == pending.insert(
                process_id,
                e.now,
            )
            &&& e.left_pressed && !e.text_cursor ==> after.pending_chat_inputs == pending.remove(
                process_id,
            )
            &&& !e.left_pressed ==> after.pending_chat_inputs == pending
        }),
{
    processes::chats_have_no_editing_mode(name);
}

/// Applications without an editing mode are never in one.
pub proof fn other_applications_have_no_editing_mode(
    m: EditModel,
    name: Seq<char>,
    process_id: u32,
    e: EditEvent,
)
    requires
        !processes::listed(name, processes::DESIGN_TEXT_SHORTCUT_APPS@),
        !processes::listed(name, processes::OFFICE_EDIT_APPS@),
        !processes::listed(name, processes::TRANSIENT_CARET_APPS@),
    ensures
        !edit_mode::mode_outcome(m, name, process_id, e).1,
{
}

/// Nothing in the check bears on the text but keys that are typed: no click, no key that
/// leaves the text, and no native control.
pub open spec fn is_typing(e: EditEvent) -> bool {
    &&& !e.left_pressed
    &&& !e.escape_pressed
    &&& !(e.ctrl_active && e.enter_pressed)
    &&& !e.native_edit_focus
}

/// Text on the canvas is being edited, with the pointer in the shape `shape`.
pub open spec fn edits_canvas_text(d: DesignModel, shape: isize) -> bool {
    d.text && !d.native && d.cursor == Some(shape)
}

/// The state of a design application after the checks `checks`, in order.
pub open spec fn after_design_checks(s: DesignState, checks: Seq<EditEvent>) -> DesignState
    decreases checks.len(),
{
    if checks.len() == 0 {
        s
    } else {
        design_mode::design_outcome(
            after_design_checks(s, checks.drop_last()),
            checks.last(),
        ).0
    }
}

/// Text on the canvas goes on being edited while it is typed and the pointer keeps its
/// shape, whatever letters are typed, the keys of tools among them, and over any number
/// of checks.
pub proof fn typing_keeps_the_text(s: DesignState, checks: Seq<EditEvent>, shape: isize)
    requires
        edits_canvas_text(s.session, shape),
        checks.len() > 0,
        forall|i: int|
            0 <= i < checks.len() ==> is_typing(#[trigger] checks[i]) && checks[i].cursor == Some(
                shape,
            ),
    ensures
        edits_canvas_text(after_design_checks(s, checks).session, shape),
        design_mode::design_outcome(
            after_design_checks(s, checks.drop_last()),
            checks.last(),
        ).1,
    decreases checks.len(),
{
    let before = checks.drop_last();
    if before.len() > 0 {
        assert forall|i: int| 0 <= i < before.len() implies is_typing(#[trigger] before[i])
            && before[i].cursor == Some(shape) by {
            assert(before[i] == checks[i]);
        }
        typing_keeps_the_text(s, before, shape);
    }
    assert(is_typing(checks[checks.len() - 1]));
}

/// A pointer that changes its shape ends no text by itself: text may have several
/// shapes.
pub proof fn a_changed_shape_alone_ends_nothing(s: DesignState, e: EditEvent)
    requires
        s.session.text,
        !s.session.native,
        s.session.pending_tool_check is None,
        is_typing(e),
    ensures
        design_mode::design_outcome(s, e).1,
        design_mode::design_outcome(s, e).0.session.text,
{
}

/// A pointer that has another shape a hundred and twenty milliseconds after the key of
/// another tool shows that the text was left; before that it shows nothing, and with
/// the same shape the text goes on.
pub proof fn another_shape_after_a_tool_key_ends_the_text(
    s: DesignState,
    typed: EditEvent,
    next: EditEvent,
    shape: isize,
)
    requires
        edits_canvas_text(s.session, shape),
        s.session.pending_tool_check is None,
        s.session.pending_canvas is None,
        is_typing(typed),
        typed.b_pressed || typed.v_tool_pressed,
        !typed.t_pressed || typed.has_caret,
        is_typing(next),
        !next.b_pressed,
        !next.v_tool_pressed,
        next.cursor is Some,
    ensures
        ({
            let (between, still) = design_mode::design_outcome(s, typed);
            let (after, editing) = design_mode::design_outcome(between, next);
            &&& still && between.session.text
            &&& editing == after.session.text
            &&& editing <==> next.cursor == Some(shape) || next.now.nanos - typed.now.nanos
                < 120_000_000
            &&& !editing && !next.t_pressed ==> !after.session.tool
            &&& next.now.nanos - typed.now.nanos >= 120_000_000
                ==> after.session.pending_tool_check is None
        }),
{
}

/// `T` arms the text tool for two and a half seconds: until then a click that is not on
/// the arrow places text, and afterwards it needs a text cursor.
pub proof fn the_text_tool_stays_armed_for_its_time(
    s: DesignState,
    selected: EditEvent,
    clicked: EditEvent,
)
    requires
        !s.session.text,
        !s.session.native,
        s.session.pending_canvas is None,
        s.session.pending_tool_check is None,
        selected.t_pressed,
        !selected.has_caret,
        is_typing(selected),
        clicked.left_pressed,
        !clicked.double_click,
        !clicked.text_cursor,
        !clicked.standard_arrow,
        !clicked.native_edit_focus,
        !clicked.escape_pressed,
        !clicked.enter_pressed,
        !clicked.t_pressed,
        !clicked.b_pressed,
        !clicked.v_tool_pressed,
    ensures
        ({
            let armed = design_mode::design_outcome(s, selected).0;
            design_mode::design_outcome(armed, clicked).1 <==> clicked.now.nanos
                - selected.now.nanos <= 2_500_000_000
        }),
{
}

/// The key of another tool lays the text tool down: a click that is not with a text
/// cursor places no text then.
pub proof fn another_tool_lays_the_text_tool_down(
    s: DesignState,
    pressed: EditEvent,
    clicked: EditEvent,
)
    requires
        !s.session.text,
        !s.session.native,
        s.session.pending_canvas is None,
        pressed.b_pressed || pressed.v_tool_pressed,
        !pressed.t_pressed,
        is_typing(pressed),
        clicked.left_pressed,
        !clicked.text_cursor,
        !clicked.t_pressed,
        !clicked.native_edit_focus,
    ensures
        !design_mode::design_outcome(design_mode::design_outcome(s, pressed).0, clicked).1,
{
}

/// `T` in a field with a caret is a letter: it does not arm the text tool.
pub proof fn the_text_tool_is_not_armed_at_a_caret(s: DesignState, e: EditEvent)
    requires
        e.has_caret,
        !e.left_pressed,
        s.session.armed_at is None,
    ensures
        design_mode::design_outcome(s, e).0.session.armed_at is None,
{
}

/// The shape of the pointer with which text was placed is known as a text cursor from
/// then on, and as the shape of this text.
pub proof fn the_shape_of_placed_text_is_learned(s: DesignState, e: EditEvent, shape: isize)
    requires
        !s.session.text,
        !s.session.native,
        s.session.pending_canvas is None,
        e.left_pressed,
        e.cursor == Some(shape),
        !e.native_edit_focus,
        !e.escape_pressed,
        !e.enter_pressed,
        !e.b_pressed,
        !e.v_tool_pressed,
        (e.double_click && e.text_cursor) || (!e.standard_arrow && s.session.armed_at is Some
            && e.now.nanos - (s.session.armed_at->0).nanos <= 2_500_000_000),
    ensures
        design_mode::design_outcome(s, e).1,
        design_mode::design_outcome(s, e).0.session.tool,
        design_mode::design_outcome(s, e).0.session.armed_at is None,
        design_mode::design_outcome(s, e).0.last_click is None,
        design_mode::design_outcome(s, e).0.text_cursors.contains(shape),
        edits_canvas_text(design_mode::design_outcome(s, e).0.session, shape),
{
}

/// Known text cursors are not forgotten while the process stays.
pub proof fn text_cursors_are_not_forgotten(s: DesignState, e: EditEvent, shape: isize)
    requires
        s.text_cursors.contains(shape),
    ensures
        design_mode::design_outcome(s, e).0.text_cursors.contains(shape),
{
}

/// A double click that is not with a text cursor waits: text is edited if, between forty
/// and five hundred milliseconds later, the pointer is a text cursor, a caret shows, or
/// the pointer has a shape of its own that is not known from another tool and either
/// came in place of the arrow or is the one of the click.
pub proof fn a_double_click_waits_for_the_text(
    s: DesignState,
    clicked: EditEvent,
    next: EditEvent,
)
    requires
        !s.session.text,
        !s.session.native,
        s.session.armed_at is None,
        s.session.pending_canvas is None,
        s.session.pending_tool_check is None,
        clicked.left_pressed,
        clicked.double_click,
        !clicked.text_cursor,
        !clicked.native_edit_focus,
        !clicked.escape_pressed,
        !clicked.enter_pressed,
        !clicked.t_pressed,
        !clicked.b_pressed,
        !clicked.v_tool_pressed,
        is_typing(next),
    ensures
        ({
            let (between, at_once) = design_mode::design_outcome(s, clicked);
            let waited = if next.now.nanos >= clicked.now.nanos {
                next.now.nanos - clicked.now.nanos
            } else {
                0
            };
            let own_shape = next.cursor is Some && !next.cursor_is_arrow
                && !s.session.nontext_cursors.contains(next.cursor->0);
            &&& !at_once
            &&& design_mode::design_outcome(between, next).1 <==> {
                &&& 40_000_000 <= waited <= 500_000_000
                &&& {
                    ||| next.cursor_is_text
                    ||| next.cursor is Some && s.text_cursors.contains(next.cursor->0)
                    ||| next.has_caret
                    ||| own_shape && (clicked.standard_arrow || next.cursor == clicked.cursor)
                }
            }
            &&& design_mode::design_outcome(between, next).0.session.pending_canvas is None <==> {
                ||| design_mode::design_outcome(between, next).1
                ||| waited > 500_000_000
            }
        }),
{
}

/// A native control is edited as soon as it has the focus, and the text on the canvas is
/// left for it.
pub proof fn native_controls_are_edited(s: DesignState, e: EditEvent)
    requires
        e.native_edit_focus,
        !e.escape_pressed,
        !e.enter_pressed,
        !e.left_pressed,
    ensures
        design_mode::design_outcome(s, e).1,
        design_mode::design_outcome(s, e).0.session.native,
        !design_mode::design_outcome(s, e).0.session.text,
        !design_mode::design_outcome(s, e).0.session.tool,
        design_mode::design_outcome(s, e).0.session.armed_at is None,
        design_mode::design_outcome(s, e).0.session.pending_canvas is None,
        design_mode::design_outcome(s, e).0.session.pending_native is None,
{
}

/// `Enter` commits what is edited in a native control, and a click outside does too.
pub proof fn native_controls_are_committed(s: DesignState, e: EditEvent)
    requires
        s.session.native,
        !s.session.text,
        s.session.pending_canvas is None,
        e.has_caret,
        e.enter_pressed || (e.left_pressed && !e.double_click && !e.native_edit_focus),
    ensures
        !design_mode::design_outcome(s, e).1,
        !design_mode::design_outcome(s, e).0.session.native,
{
}

/// A click into the text goes on editing it, unless it is on the arrow.
pub proof fn a_click_into_the_text_goes_on(s: DesignState, e: EditEvent)
    requires
        s.session.text,
        s.session.tool,
        !s.session.native,
        s.session.pending_tool_check is None,
        e.left_pressed,
        e.text_cursor,
        !e.standard_arrow,
        !e.native_edit_focus,
        !e.escape_pressed,
        !e.enter_pressed,
    ensures
        design_mode::design_outcome(s, e).1,
{
}

/// A click that is neither with a text cursor nor within two and a half seconds of `T`
/// leaves nothing being edited on the canvas.
pub proof fn other_clicks_end_the_text(s: DesignState, e: EditEvent)
    requires
        e.left_pressed,
        !e.text_cursor,
        !e.t_pressed,
        !e.native_edit_focus,
        s.session.armed_at matches Some(at) ==> e.now.nanos - at.nanos > 2_500_000_000,
    ensures
        !design_mode::design_outcome(s, e).1,
{
}

/// `Esc` and `Ctrl+Enter` end the editing whatever else a check holds, and nothing that
/// waits starts it again.
pub proof fn leaving_keys_leave_nothing_waiting(s: DesignState, e: EditEvent, next: EditEvent)
    requires
        e.escape_pressed || (e.ctrl_active && e.enter_pressed),
        is_typing(next),
    ensures
        !design_mode::design_outcome(s, e).1,
        !design_mode::design_outcome(design_mode::design_outcome(s, e).0, next).1,
{
}

/// A click lies at most four hundred and fifty milliseconds back that waits for the
/// caret.
pub open spec fn waits_for_caret(o: OfficeSession, now: Instant) -> bool {
    o.pending matches Some(at) && now.nanos - at.nanos <= 450_000_000
}

/// Without a click an office application is edited where it was, or where a caret comes
/// that does not linger from before or that a click waited for. `Esc` ends it, and
/// `Enter` in a sheet.
pub proof fn office_editing_goes_on(o: OfficeSession, e: EditEvent, spreadsheet: bool)
    requires
        !e.left_pressed,
    ensures
        office_mode::office_outcome(o, e, spreadsheet).editing <==> {
            &&& !e.escape_pressed
            &&& !(spreadsheet && e.enter_pressed)
            &&& o.editing || (e.has_caret && (!o.suppressed || waits_for_caret(o, e.now)))
        },
{
}

/// A click in an office application: a double click starts editing everywhere. A single
/// click ends it in a sheet. In a document it starts it unless it is on the arrow, and
/// even there where a caret shows that does not linger from before.
pub proof fn office_clicks_decide(o: OfficeSession, e: EditEvent, spreadsheet: bool)
    requires
        e.left_pressed,
    ensures
        office_mode::office_outcome(o, e, spreadsheet).editing <==> {
            &&& !e.escape_pressed
            &&& !(spreadsheet && e.enter_pressed)
            &&& {
                ||| e.double_click
                ||| !spreadsheet && (!e.standard_arrow || (e.has_caret && (!o.suppressed
                    || waits_for_caret(o, e.now))))
            }
        },
{
}

/// A caret that lingers after editing ended is passed over until it goes; the next one
/// counts.
pub proof fn a_caret_lingers_until_it_goes(o: OfficeSession, e: EditEvent, spreadsheet: bool)
    requires
        !e.left_pressed,
        !e.escape_pressed,
        !(spreadsheet && e.enter_pressed),
    ensures
        office_mode::office_outcome(o, e, spreadsheet).suppressed <==> o.suppressed && e.has_caret
            && !waits_for_caret(o, e.now),
{
}

/// A single click in a document waits for the caret where none counts yet. Nothing waits
/// in a sheet, and what has waited too long does not any more.
pub proof fn clicks_wait_for_the_caret(o: OfficeSession, e: EditEvent, spreadsheet: bool)
    requires
        !e.escape_pressed,
        !(spreadsheet && e.enter_pressed),
    ensures
        ({
            let after = office_mode::office_outcome(o, e, spreadsheet);
            let counts = e.has_caret && (!o.suppressed || waits_for_caret(o, e.now));
            &&& e.left_pressed && !e.double_click && !spreadsheet && !counts ==> after.pending
                == Some(e.now)
            &&& e.left_pressed && (e.double_click || spreadsheet) ==> after.pending is None
            &&& !e.left_pressed ==> after.pending == (if waits_for_caret(o, e.now) && !e.has_caret {
                o.pending
            } else {
                None
            })
        }),
{
}

/// A waiting double click is text between forty and five hundred milliseconds later. The
/// arrow is never learned as a text cursor. A click places text with the armed tool off
/// the arrow, or as a double click with a text cursor.
pub proof fn signs_of_text(
    elapsed: Duration,
    text_cursor: bool,
    tool: bool,
    arrow: bool,
    double_click: bool,
)
    ensures
        design_mode::confirms_text(elapsed, text_cursor) <==> text_cursor && 40_000_000
            <= elapsed.nanos <= 500_000_000,
        design_mode::learns_cursor(tool, arrow) <==> tool && !arrow,
        design_mode::enters_text(double_click, tool, text_cursor, arrow) <==> (tool && !arrow) || (
        double_click && text_cursor),
{
}

/// The cursors of other tools are learned from their keys, and `T` teaches the one of
/// the text tool, but never the arrow of a click.
pub proof fn tool_keys_teach_their_cursors(s: DesignState, e: EditEvent, shape: isize)
    requires
        !s.session.text,
        !s.session.native,
        s.session.pending_canvas is None,
        is_typing(e),
        !e.has_caret,
        !e.standard_arrow,
        e.cursor == Some(shape),
    ensures
        ({
            let after = design_mode::design_outcome(s, e).0;
            &&& e.t_pressed ==> after.text_cursors == s.text_cursors.insert(shape)
                && after.session.nontext_cursors == s.session.nontext_cursors
            &&& !e.t_pressed && (e.b_pressed || e.v_tool_pressed) ==> after.session.nontext_cursors
                == s.session.nontext_cursors.insert(shape) && after.text_cursors == s.text_cursors
            &&& !e.t_pressed && !e.b_pressed && !e.v_tool_pressed ==> after.text_cursors
                == s.text_cursors && after.session.nontext_cursors == s.session.nontext_cursors
        }),
{
}

/// The text cursors that are known are those of the process in front.
pub proof fn cursors_belong_to_a_process(
    m: EditModel,
    name: Seq<char>,
    process_id: u32,
    e: EditEvent,
)
    requires
        processes::listed(name, processes::DESIGN_TEXT_SHORTCUT_APPS@),
        m.text_cursors.process_id != process_id,
    ensures
        edit_mode::mode_outcome(m, name, process_id, e) == edit_mode::mode_outcome(
            EditModel {
                text_cursors: design_mode::CursorModel { process_id, handles: Set::empty() },
                ..m
            },
            name,
            process_id,
            e,
        ),
{
}

/// After a click on the arrow ended the text, the text tool is laid down: a single click
/// with a text cursor does not go on editing, and neither does one with another cursor.
pub proof fn ended_text_needs_a_new_start(s: DesignState, ended: EditEvent, clicked: EditEvent)
    requires
        s.session.text,
        !s.session.native,
        ended.left_pressed,
        !ended.double_click,
        ended.standard_arrow,
        !ended.text_cursor,
        !ended.native_edit_focus,
        !ended.t_pressed,
        clicked.left_pressed,
        !clicked.double_click,
        !clicked.t_pressed,
        !clicked.native_edit_focus,
        s.session.pending_tool_check is None,
        s.session.pending_canvas is None,
    ensures
        !design_mode::design_outcome(s, ended).1,
        !design_mode::design_outcome(design_mode::design_outcome(s, ended).0, clicked).1,
        design_mode::design_outcome(s, ended).0.last_click is None,
{
}

/// A double click that starts editing in an office application is used up by it.
pub proof fn a_used_double_click_begins_no_other(
    last: clicks::LastClick,
    e: EditEvent,
    spreadsheet: bool,
)
    ensures
        e.left_pressed && e.double_click && !e.escape_pressed && !(spreadsheet && e.enter_pressed)
            ==> office_mode::office_last_click(last, e, spreadsheet) is None,
        !e.left_pressed || !e.double_click ==> office_mode::office_last_click(last, e, spreadsheet)
            == last,
{
}

/// Sheets and documents are told by their application: a single click ends editing in a
/// sheet, and starts it in a document where it is not on the arrow.
pub proof fn sheets_and_documents_differ(
    m: EditModel,
    name: Seq<char>,
    process_id: u32,
    e: EditEvent,
)
    requires
        processes::listed(name, processes::OFFICE_EDIT_APPS@),
        !processes::listed(name, processes::DESIGN_TEXT_SHORTCUT_APPS@),
        e.left_pressed,
        !e.double_click,
        !e.escape_pressed,
    ensures
        processes::listed(name, processes::OFFICE_SPREADSHEET_APPS@) ==> !edit_mode::mode_outcome(
            m,
            name,
            process_id,
            e,
        ).1,
        !processes::listed(name, processes::OFFICE_SPREADSHEET_APPS@) && !e.standard_arrow
            ==> edit_mode::mode_outcome(m, name, process_id, e).1,
{
}

/// The editing of an office application goes on from check to check.
pub proof fn office_editing_is_remembered(
    m: EditModel,
    name: Seq<char>,
    process_id: u32,
    e: EditEvent,
    next: EditEvent,
)
    requires
        processes::listed(name, processes::OFFICE_EDIT_APPS@),
        !processes::listed(name, processes::DESIGN_TEXT_SHORTCUT_APPS@),
        edit_mode::mode_outcome(m, name, process_id, e).1,
        !next.left_pressed,
        !next.escape_pressed,
        !next.enter_pressed,
    ensures
        edit_mode::mode_outcome(
            edit_mode::mode_outcome(m, name, process_id, e).0,
            name,
            process_id,
            next,
        ).1,
{
}

/// A window class stands for an edit or search control exactly where its name holds one
/// of these words, in any case.
pub proof fn edit_classes_hold_the_word(
    before: Seq<char>,
    word: Seq<char>,
    behind: Seq<char>,
)
    requires
        crate::text::same_ignoring_ascii_case(word, "edit"@)
            || crate::text::same_ignoring_ascii_case(word, "search"@),
    ensures
        edit_mode::edit_like_class(Some(before + word + behind)),
        !edit_mode::edit_like_class(None),
        !edit_mode::edit_like_class(Some(seq![])),
{
    reveal_strlit("edit");
    reveal_strlit("search");
    if crate::text::same_ignoring_ascii_case(word, "edit"@) {
        crate::laws::writing::texts_hold_their_parts(before, word, behind, "edit"@);
    } else {
        crate::laws::writing::texts_hold_their_parts(before, word, behind, "search"@);
    }
}

/// A single click with a text cursor edits text exactly where the text tool is selected,
/// however long ago that was; the shape of the pointer is then that of the text.
pub proof fn a_click_with_a_text_cursor_needs_the_tool(s: DesignState, e: EditEvent)
    requires
        !s.session.text,
        !s.session.native,
        s.session.pending_canvas is None,
        s.session.pending_tool_check is None,
        s.session.armed_at is None,
        e.left_pressed,
        !e.double_click,
        e.text_cursor,
        !e.native_edit_focus,
        !e.escape_pressed,
        !e.enter_pressed,
        !e.t_pressed,
        !e.b_pressed,
        !e.v_tool_pressed,
    ensures
        design_mode::design_outcome(s, e).1 <==> s.session.tool,
        s.session.tool && e.cursor is Some ==> design_mode::design_outcome(s, e).0.session.cursor
            == e.cursor,
{
}

/// Selecting the text tool selects it until another tool is selected or the text is left.
pub proof fn a_selected_tool_stays_selected(s: DesignState, selected: EditEvent, next: EditEvent)
    requires
        !s.session.text,
        !s.session.native,
        s.session.pending_canvas is None,
        s.session.pending_tool_check is None,
        selected.t_pressed,
        !selected.has_caret,
        is_typing(selected),
        is_typing(next),
    ensures
        ({
            let after = design_mode::design_outcome(
                design_mode::design_outcome(s, selected).0,
                next,
            ).0.session;
            after.tool <==> !(next.b_pressed || next.v_tool_pressed) || (next.t_pressed
                && !next.has_caret)
        }),
{
}

/// A click on the arrow of a document ends editing: a caret that is still there half a
/// second later does not restart it.
pub proof fn a_click_beside_the_text_is_for_good(
    o: OfficeSession,
    clicked: EditEvent,
    next: EditEvent,
)
    requires
        clicked.left_pressed,
        !clicked.double_click,
        clicked.standard_arrow,
        !clicked.has_caret || (o.suppressed && !waits_for_caret(o, clicked.now)),
        !next.left_pressed,
        next.now.nanos - clicked.now.nanos > 450_000_000,
    ensures
        !office_mode::office_outcome(
            office_mode::office_outcome(o, clicked, false),
            next,
            false,
        ).editing,
{
}

/// A click that starts or ends editing is used up: it begins no double click with the
/// next one. Other clicks stay remembered as they were read.
pub proof fn clicks_that_decide_are_used_up(
    m: EditModel,
    name: Seq<char>,
    process_id: u32,
    e: EditEvent,
)
    ensures
        ({
            let after = edit_mode::mode_outcome(m, name, process_id, e).0;
            let design = processes::listed(name, processes::DESIGN_TEXT_SHORTCUT_APPS@);
            let office = processes::listed(name, processes::OFFICE_EDIT_APPS@);
            &&& design && (e.escape_pressed || (e.ctrl_active && e.enter_pressed))
                ==> after.last_left_click is None
            &&& design && !e.left_pressed && !e.escape_pressed && !e.enter_pressed
                ==> after.last_left_click == m.last_left_click
            &&& design && e.left_pressed && e.double_click && e.text_cursor && !e.native_edit_focus
                && !e.enter_pressed ==> after.last_left_click is None
            &&& !design && office && e.left_pressed && e.double_click && !e.escape_pressed
                && !e.enter_pressed ==> after.last_left_click is None
            &&& !design && (!office || !e.left_pressed || !e.double_click)
                ==> after.last_left_click == m.last_left_click
        }),
{
}

/// At the start nothing is edited: without a click and without a native control no check
/// of a design application finds text, and an office application is edited only where a
/// caret shows.
pub proof fn nothing_is_edited_at_the_start(name: Seq<char>, process_id: u32, e: EditEvent)
    requires
        !e.left_pressed,
        !e.native_edit_focus,
        !e.has_caret,
    ensures
        !edit_mode::mode_outcome(edit_mode::initial_edit_model(), name, process_id, e).1,
{
}

/// A single click into the text, off the arrow, goes by the pointer alone: keys of tools in
/// the same check change nothing.
pub proof fn a_click_into_the_text_goes_by_the_pointer(s: DesignState, e: EditEvent)
    requires
        s.session.text,
        s.session.tool,
        !s.session.native,
        s.session.armed_at is None,
        s.session.pending_canvas is None,
        s.session.pending_tool_check is None,
        e.left_pressed,
        !e.double_click,
        !e.standard_arrow,
        !e.native_edit_focus,
        !e.escape_pressed,
        !e.enter_pressed,
    ensures
        ({
            let (after, editing) = design_mode::design_outcome(s, e);
            &&& editing <==> e.text_cursor
            &&& after.session.armed_at is None
            &&& after.session.pending_tool_check is None
            &&& after.session.nontext_cursors == s.session.nontext_cursors
            &&& after.text_cursors == s.text_cursors
        }),
{
}

/// The pointer is looked at once after the key of another tool: where it had kept its
/// shape then, a later shape ends nothing.
pub proof fn the_pointer_is_looked_at_once(
    s: DesignState,
    typed: EditEvent,
    looked: EditEvent,
    later: EditEvent,
    shape: isize,
)
    requires
        edits_canvas_text(s.session, shape),
        s.session.pending_tool_check is None,
        s.session.pending_canvas is None,
        is_typing(typed),
        is_typing(looked),
        !looked.b_pressed,
        !looked.v_tool_pressed,
        looked.cursor == Some(shape),
        looked.now.nanos - typed.now.nanos >= 120_000_000,
        is_typing(later),
    ensures
        ({
            let between = design_mode::design_outcome(s, typed).0;
            let after = design_mode::design_outcome(between, looked).0;
            design_mode::design_outcome(after, later).1
        }),
{
}

/// A check in which nothing happens and nothing waits changes nothing.
pub proof fn an_idle_check_changes_nothing(s: DesignState, e: EditEvent)
    requires
        is_typing(e),
        !e.enter_pressed,
        !e.t_pressed,
        !e.b_pressed,
        !e.v_tool_pressed,
        s.session.native ==> e.has_caret,
        s.session.pending_canvas is None,
        s.session.pending_native is None,
        s.session.pending_tool_check is None,
    ensures
        design_mode::design_outcome(s, e) == (s, s.session.text || s.session.native),
{
}

/// The end of the editing of a design application leaves it as if no text tool had been
/// selected and nothing had been clicked; only what was learned of pointers stays.
pub proof fn ended_editing_leaves_no_tool(s: DesignState, e: EditEvent)
    requires
        e.escape_pressed || (e.ctrl_active && e.enter_pressed),
    ensures
        ({
            let after = design_mode::design_outcome(s, e).0;
            &&& !after.session.text && !after.session.native && !after.session.tool
            &&& after.session.armed_at is None && after.session.cursor is None
            &&& after.session.pending_canvas is None && after.last_click is None
            &&& after.session.nontext_cursors == s.session.nontext_cursors
            &&& after.session.process_id == s.session.process_id
        }),
{
}

/// What a click leaves of a caret that lingers: after a double click every caret counts
/// again, after a click into a sheet none that lingers does, and a click into a document
/// passes over a caret that lingers only where it is on the arrow.
pub proof fn clicks_decide_about_lingering_carets(
    o: OfficeSession,
    e: EditEvent,
    spreadsheet: bool,
)
    requires
        e.left_pressed,
        !e.escape_pressed,
        !(spreadsheet && e.enter_pressed),
    ensures
        ({
            let lingers = o.suppressed && e.has_caret && !waits_for_caret(o, e.now);
            let after = office_mode::office_outcome(o, e, spreadsheet);
            &&& e.double_click ==> !after.suppressed
            &&& !e.double_click && spreadsheet ==> after.suppressed
            &&& !e.double_click && !spreadsheet ==> (after.suppressed <==> lingers || (
            e.standard_arrow && !e.has_caret))
            &&& after.process_id == o.process_id
        }),
{
}

} // verus!
