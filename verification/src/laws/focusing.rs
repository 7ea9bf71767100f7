//! What holds of the focus.

use vstd::prelude::*;

use crate::caret_detector;
use crate::caret_detector::{DetectorModel, FocusQuery, FrontWindow, SeenInputs};
use crate::clicks::ClickSample;
use crate::clock;
use crate::clock::{Duration, Instant};
use crate::edit_mode;
use crate::edit_mode::InputSample;
use crate::identity;
use crate::identity::ValueAccess;
use crate::laws::editing;
use crate::processes;

verus! {

/// Applications that only show the state are left alone: they take no text, the
/// caret is not looked for, no element is queried, and nothing is remembered.
pub proof fn state_only_applications_are_left_alone(
    m: DetectorModel,
    queued: Seq<ClickSample>,
    q: FocusQuery,
    sample: InputSample,
    methods: Seq<String>,
)
    requires
        processes::shows_state_only(q.process_name@, processes::opt_text(q.app_rule)),
    ensures
        ({
            let (after, context) = caret_detector::focus_outcome(m, queued, q, sample);
            &&& after == m
            &&& !context.editable && !context.password && !context.readonly_document
            &&& !context.force_mouse_indicator && !context.input_double_click
        }),
        caret_detector::clicks_kept(queued, q) == queued,
        caret_detector::sources_for(
            q.process_name@,
            processes::opt_text(q.app_rule),
            methods,
        ).len() == 0,
{
}

/// The identity of the focus stays while the caret moves or goes: it depends on
/// nothing but the application, its windows and the focused element.
pub proof fn the_identity_stays(
    m: DetectorModel,
    queued: Seq<ClickSample>,
    q: FocusQuery,
    sample: InputSample,
    other_m: DetectorModel,
    other_queued: Seq<ClickSample>,
    other_q: FocusQuery,
    other_sample: InputSample,
)
    requires
        q.window == other_q.window,
        q.process_name == other_q.process_name,
        q.app_rule == other_q.app_rule,
        q.element == other_q.element,
    ensures
        caret_detector::focus_outcome(m, queued, q, sample).1.identity
            == caret_detector::focus_outcome(
            other_m,
            other_queued,
            other_q,
            other_sample,
        ).1.identity,
{
}

/// What takes text is no read-only document, what holds a password takes text, and
/// the mouse stands in for the caret only where text is edited without one.
pub proof fn the_facts_of_a_context_agree(
    m: DetectorModel,
    queued: Seq<ClickSample>,
    q: FocusQuery,
    sample: InputSample,
)
    ensures
        ({
            let context = caret_detector::focus_outcome(m, queued, q, sample).1;
            &&& context.readonly_document ==> !context.editable
            &&& context.password ==> context.editable
            &&& context.force_mouse_indicator ==> context.editable && !q.has_caret
        }),
{
}

/// A query that failed makes no read-only document.
pub proof fn a_failed_query_makes_no_readonly_document(
    m: DetectorModel,
    queued: Seq<ClickSample>,
    q: FocusQuery,
    sample: InputSample,
)
    requires
        q.element matches Some(el) ==> el.value == ValueAccess::Unknown,
    ensures
        !caret_detector::focus_outcome(m, queued, q, sample).1.readonly_document,
{
}

/// Applications on the fast path are not judged by their elements.
pub proof fn the_fast_path_needs_no_element(
    m: DetectorModel,
    queued: Seq<ClickSample>,
    q: FocusQuery,
    sample: InputSample,
)
    requires
        caret_detector::takes_fast_path(q.process_name@),
    ensures
        caret_detector::focus_outcome(m, queued, q, sample) == caret_detector::focus_outcome(
            m,
            queued,
            FocusQuery { element: None, ..q },
            sample,
        ),
{
}

/// An edit control whose value can be written takes text, with or without a caret.
pub proof fn edit_controls_take_text(
    m: DetectorModel,
    queued: Seq<ClickSample>,
    q: FocusQuery,
    sample: InputSample,
)
    requires
        !processes::shows_state_only(q.process_name@, processes::opt_text(q.app_rule)),
        !caret_detector::takes_fast_path(q.process_name@),
        q.element matches Some(el) && el.control_type == caret_detector::EDIT_CONTROL_TYPE
            && el.value != ValueAccess::ReadOnly,
    ensures
        caret_detector::focus_outcome(m, queued, q, sample).1.editable,
{
}

/// A caret is no evidence in applications that are not known for it: some keep one
/// outside their inputs. And no caret makes a read-only document take text.
pub proof fn a_stray_caret_is_no_input(
    m: DetectorModel,
    queued: Seq<ClickSample>,
    q: FocusQuery,
    sample: InputSample,
)
    requires
        !caret_detector::takes_fast_path(q.process_name@),
        !processes::listed(q.process_name@, processes::TRANSIENT_CARET_APPS@),
        q.element matches Some(el) && !el.password && (if el.control_type
            == caret_detector::DOCUMENT_CONTROL_TYPE {
            el.value != ValueAccess::Writable && (el.value == ValueAccess::ReadOnly
                || !caret_detector::accepts_caret(q.process_name@, q.extra_input_apps@))
        } else {
            el.control_type != caret_detector::EDIT_CONTROL_TYPE && !caret_detector::accepts_caret(
                q.process_name@,
                q.extra_input_apps@,
            )
        }),
    ensures
        !caret_detector::focus_outcome(m, queued, q, sample).1.editable,
{
    processes::special_apps_take_the_fast_path(q.process_name@);
}

/// Design and office applications are judged by their editing mode alone.
pub proof fn the_mode_alone_decides(
    m: DetectorModel,
    queued: Seq<ClickSample>,
    q: FocusQuery,
    sample: InputSample,
)
    requires
        !processes::shows_state_only(q.process_name@, processes::opt_text(q.app_rule)),
        caret_detector::mode_alone_decides(q.process_name@),
    ensures
        caret_detector::focus_outcome(m, queued, q, sample).1.editable == edit_mode::edit_outcome(
            m.edit,
            queued,
            q.process_name@,
            q.window.process_id,
            q.has_caret,
            sample,
        ).1,
{
    processes::special_apps_take_the_fast_path(q.process_name@);
    if processes::listed(q.process_name@, processes::TRANSIENT_CARET_APPS@) {
        processes::chats_have_no_editing_mode(q.process_name@);
    }
}

/// A caret in a chat is an input, and it is remembered when and where it was seen.
pub proof fn the_input_of_a_chat_is_remembered(
    m: DetectorModel,
    queued: Seq<ClickSample>,
    q: FocusQuery,
    sample: InputSample,
)
    requires
        processes::listed(q.process_name@, processes::TRANSIENT_CARET_APPS@),
        !processes::shows_state_only(q.process_name@, processes::opt_text(q.app_rule)),
        q.window.process_id != 0,
        q.has_caret,
    ensures
        ({
            let (after, context) = caret_detector::focus_outcome(m, queued, q, sample);
            &&& context.editable
            &&& after.seen == m.seen.insert(
                q.window.process_id,
                (q.window.foreground_hwnd, q.window.focused_hwnd, sample.now),
            )
        }),
{
    processes::chats_have_no_editing_mode(q.process_name@);
}

/// A chat keeps its input for a moment when the caret drops out of the same field.
pub proof fn a_short_dropout_is_bridged(
    m: DetectorModel,
    queued: Seq<ClickSample>,
    q: FocusQuery,
    sample: InputSample,
    seen_at: Instant,
)
    requires
        processes::listed(q.process_name@, processes::TRANSIENT_CARET_APPS@),
        !processes::shows_state_only(q.process_name@, processes::opt_text(q.app_rule)),
        m.seen.contains_key(q.window.process_id),
        m.seen[q.window.process_id] == (
            q.window.foreground_hwnd,
            q.window.focused_hwnd,
            seen_at,
        ),
        clock::elapsed(seen_at, sample.now) <= clock::millis(
            caret_detector::CARET_DROPOUT_GRACE_MS as int,
        ),
    ensures
        caret_detector::focus_outcome(m, queued, q, sample).1.editable,
{
}

/// A paste withdraws the caret for longer, and may move the focus within the
/// window: the chat keeps its input all the same.
pub proof fn a_paste_is_bridged(
    m: DetectorModel,
    queued: Seq<ClickSample>,
    q: FocusQuery,
    sample: InputSample,
    focused_hwnd: usize,
    seen_at: Instant,
)
    requires
        processes::listed(q.process_name@, processes::TRANSIENT_CARET_APPS@),
        !processes::shows_state_only(q.process_name@, processes::opt_text(q.app_rule)),
        q.window.process_id != 0,
        m.edit.paste_started.contains_key(q.window.process_id),
        clock::elapsed(m.edit.paste_started[q.window.process_id], sample.now) <= clock::millis(
            edit_mode::PASTE_CARET_GRACE_MS as int,
        ),
        m.seen.contains_key(q.window.process_id),
        m.seen[q.window.process_id] == (q.window.foreground_hwnd, focused_hwnd, seen_at),
        clock::elapsed(seen_at, sample.now) <= clock::millis(
            caret_detector::PASTE_INPUT_GRACE_MS as int,
        ),
    ensures
        caret_detector::focus_outcome(m, queued, q, sample).1.editable,
{
    processes::chats_have_no_editing_mode(q.process_name@);
}

/// Nothing is bridged between two windows of a chat: in another window than the one
/// in which it was last seen, an input counts where it is seen again.
pub proof fn a_dropout_is_not_bridged_across_windows(
    m: DetectorModel,
    queued: Seq<ClickSample>,
    q: FocusQuery,
    sample: InputSample,
)
    requires
        processes::listed(q.process_name@, processes::TRANSIENT_CARET_APPS@),
        m.seen.contains_key(q.window.process_id) ==> {
            let (foreground, _, _) = m.seen[q.window.process_id];
            foreground != q.window.foreground_hwnd
        },
        caret_detector::focus_outcome(m, queued, q, sample).1.editable,
    ensures
        caret_detector::focus_outcome(m, queued, q, sample).0.seen == m.seen.insert(
            q.window.process_id,
            (q.window.foreground_hwnd, q.window.focused_hwnd, sample.now),
        ),
{
}

/// What takes text stays so, and other applications than chats are judged as they
/// are found, with nothing remembered.
pub proof fn only_chats_are_bridged(
    seen: SeenInputs,
    pastes: Map<u32, Instant>,
    name: Seq<char>,
    window: FrontWindow,
    now: Instant,
    editable: bool,
)
    ensures
        editable ==> caret_detector::stabilized(seen, pastes, name, window, now, editable).1,
        !processes::listed(name, processes::TRANSIENT_CARET_APPS@)
            ==> caret_detector::stabilized(seen, pastes, name, window, now, editable) == (
            seen,
            editable,
        ),
{
}

/// An input that is kept although it does not show was last seen in the same window
/// in front, and not long ago. Keeping it does not renew the time for which it is
/// kept.
pub proof fn bridging_is_bounded(
    seen: SeenInputs,
    pastes: Map<u32, Instant>,
    name: Seq<char>,
    window: FrontWindow,
    now: Instant,
)
    ensures
        caret_detector::stabilized(seen, pastes, name, window, now, false).0 == seen,
        caret_detector::stabilized(seen, pastes, name, window, now, false).1 ==> {
            &&& seen.contains_key(window.process_id)
            &&& seen[window.process_id] matches (foreground, _, at) && foreground
                == window.foreground_hwnd && clock::elapsed(at, now) <= clock::millis(
                caret_detector::PASTE_INPUT_GRACE_MS as int,
            )
        },
{
}

/// One judgement of the focus: of which application and windows, when, with which
/// pastes, and whether it was found to take text.
pub struct Judgement {
    pub name: Seq<char>,
    pub pastes: Map<u32, Instant>,
    pub window: FrontWindow,
    pub now: Instant,
    pub editable: bool,
}

/// What a judgement makes of the inputs that were seen before, and its result.
pub open spec fn judged(seen: SeenInputs, j: Judgement) -> (SeenInputs, bool) {
    caret_detector::stabilized(seen, j.pastes, j.name, j.window, j.now, j.editable)
}

/// The inputs that were seen, after the judgements `past`.
pub open spec fn seen_after(seen: SeenInputs, past: Seq<Judgement>) -> SeenInputs
    decreases past.len(),
{
    if past.len() == 0 {
        seen
    } else {
        judged(seen_after(seen, past.drop_last()), past.last()).0
    }
}

/// The judgement found a chat of the process `process_id` to take text.
pub open spec fn found_input(j: Judgement, process_id: u32) -> bool {
    j.editable && j.window.process_id == process_id && processes::listed(
        j.name,
        processes::TRANSIENT_CARET_APPS@,
    )
}

/// The latest judgement of `past` that found a chat of the process `process_id` to
/// take text is at the index `i`.
pub open spec fn is_latest_find(past: Seq<Judgement>, process_id: u32, i: int) -> bool {
    &&& 0 <= i < past.len()
    &&& found_input(past[i], process_id)
    &&& forall|k: int| i < k < past.len() ==> !found_input(#[trigger] past[k], process_id)
}

/// What is remembered of a chat is what its latest find saw.
proof fn the_latest_find_is_remembered(
    seen: SeenInputs,
    past: Seq<Judgement>,
    process_id: u32,
) -> (i: int)
    requires
        !seen.contains_key(process_id),
        seen_after(seen, past).contains_key(process_id),
    ensures
        is_latest_find(past, process_id, i),
        seen_after(seen, past)[process_id] == (
            past[i].window.foreground_hwnd,
            past[i].window.focused_hwnd,
            past[i].now,
        ),
    decreases past.len(),
{
    let before = past.drop_last();
    let n = past.len() - 1;
    if found_input(past.last(), process_id) {
        n
    } else {
        let i = the_latest_find_is_remembered(seen, before, process_id);
        assert(before[i] == past[i]);
        assert forall|k: int| i < k < past.len() implies !found_input(
            #[trigger] past[k],
            process_id,
        ) by {
            if k < n {
                assert(before[k] == past[k]);
            }
        }
        i
    }
}

/// An input that is kept, after any judgements, is one that the latest find of its
/// process saw in the same window in front, at most three and a half seconds ago.
/// Judgements that found nothing in between do not extend that time.
pub proof fn a_kept_input_was_found_lately(seen: SeenInputs, past: Seq<Judgement>, last: Judgement)
    requires
        !seen.contains_key(last.window.process_id),
        !last.editable,
        judged(seen_after(seen, past), last).1,
    ensures
        exists|i: int| #[trigger]
            is_latest_find(past, last.window.process_id, i) && past[i].window.foreground_hwnd
                == last.window.foreground_hwnd && clock::elapsed(past[i].now, last.now)
                <= clock::millis(caret_detector::PASTE_INPUT_GRACE_MS as int),
{
    let i = the_latest_find_is_remembered(seen, past, last.window.process_id);
    assert(is_latest_find(past, last.window.process_id, i));
}

/// The application is judged by its focused element: it is neither left alone nor on
/// the fast path.
pub open spec fn judged_by_element(q: FocusQuery) -> bool {
    &&& !processes::listed(q.process_name@, processes::INDICATOR_ONLY_APPS@)
    &&& !(q.app_rule matches Some(rule) && rule@ == "ignore"@)
    &&& !processes::listed(q.process_name@, processes::CARET_FAST_PATH_APPS@)
}

/// A caret is evidence of input in the application: it is known for that, or the
/// configuration says so.
pub open spec fn caret_counts(q: FocusQuery) -> bool {
    ||| processes::listed(q.process_name@, processes::CARET_COMPAT_APPS@)
    ||| processes::listed_in(q.process_name@, q.extra_input_apps@)
}

/// A document whose value can be written takes text in every application that is
/// judged by its element, with or without a caret and whether or not a caret counts
/// there. So it is no read-only document.
pub proof fn writable_documents_take_text(
    m: DetectorModel,
    queued: Seq<ClickSample>,
    q: FocusQuery,
    sample: InputSample,
)
    requires
        judged_by_element(q),
        q.element matches Some(el) && el.control_type == 50030 && el.value
            == ValueAccess::Writable,
    ensures
        caret_detector::focus_outcome(m, queued, q, sample).1.editable,
        !caret_detector::focus_outcome(m, queued, q, sample).1.readonly_document,
{
}

/// A password box takes text, whatever kind of element it is, and is known as one.
pub proof fn password_boxes_take_text(
    m: DetectorModel,
    queued: Seq<ClickSample>,
    q: FocusQuery,
    sample: InputSample,
)
    requires
        judged_by_element(q),
        q.element matches Some(el) && el.password,
    ensures
        caret_detector::focus_outcome(m, queued, q, sample).1.editable,
        caret_detector::focus_outcome(m, queued, q, sample).1.password,
{
}

/// Only a password box counts as one.
pub proof fn nothing_else_is_a_password_box(
    m: DetectorModel,
    queued: Seq<ClickSample>,
    q: FocusQuery,
    sample: InputSample,
)
    requires
        caret_detector::focus_outcome(m, queued, q, sample).1.password,
    ensures
        judged_by_element(q),
        q.element matches Some(el) && el.password,
{
}

/// Where a caret counts, it makes an input of every element but an edit control or a
/// document that is known to be read-only.
pub proof fn a_caret_makes_an_input_where_it_counts(
    m: DetectorModel,
    queued: Seq<ClickSample>,
    q: FocusQuery,
    sample: InputSample,
)
    requires
        judged_by_element(q),
        caret_counts(q),
        q.has_caret,
        q.element matches Some(el) && (el.control_type != 50004 && el.control_type != 50030
            || el.value != ValueAccess::ReadOnly),
    ensures
        caret_detector::focus_outcome(m, queued, q, sample).1.editable,
{
}

/// Without a caret an element that is no edit control, no document and no password
/// box takes no text, and neither does a document that cannot be written.
pub proof fn other_elements_need_a_caret(
    m: DetectorModel,
    queued: Seq<ClickSample>,
    q: FocusQuery,
    sample: InputSample,
)
    requires
        judged_by_element(q),
        !processes::listed(q.process_name@, processes::TRANSIENT_CARET_APPS@),
        !q.has_caret,
        q.element matches Some(el) && !el.password && el.control_type != 50004 && (el.control_type
            == 50030 ==> el.value != ValueAccess::Writable),
    ensures
        !caret_detector::focus_outcome(m, queued, q, sample).1.editable,
{
    processes::special_apps_take_the_fast_path(q.process_name@);
}

/// A read-only edit control takes no text, and neither does a read-only document, with
/// or without a caret; the document is a read-only one.
pub proof fn readonly_elements_take_no_text(
    m: DetectorModel,
    queued: Seq<ClickSample>,
    q: FocusQuery,
    sample: InputSample,
)
    requires
        judged_by_element(q),
        !processes::listed(q.process_name@, processes::TRANSIENT_CARET_APPS@),
        q.element matches Some(el) && !el.password && (el.control_type == 50004
            || el.control_type == 50030) && el.value == ValueAccess::ReadOnly,
    ensures
        !caret_detector::focus_outcome(m, queued, q, sample).1.editable,
        caret_detector::focus_outcome(m, queued, q, sample).1.readonly_document <==> (
        q.element->0).control_type == 50030,
{
    processes::special_apps_take_the_fast_path(q.process_name@);
}

/// A read-only document is a document of which the query told that it cannot be
/// written, in an application that is judged by its element, and it takes no text. A
/// document without a value is one too where it takes no text.
pub proof fn readonly_documents_are_known_to_be(
    m: DetectorModel,
    queued: Seq<ClickSample>,
    q: FocusQuery,
    sample: InputSample,
)
    ensures
        ({
            let context = caret_detector::focus_outcome(m, queued, q, sample).1;
            context.readonly_document <==> {
                &&& judged_by_element(q)
                &&& q.element matches Some(el) && el.control_type == 50030 && (el.value
                    == ValueAccess::ReadOnly || el.value == ValueAccess::NoValue
                    || el.value == ValueAccess::Writable)
                &&& !context.editable
            }
        }),
{
}

/// Where no element is known, the caret alone tells.
pub proof fn without_an_element_the_caret_tells(
    m: DetectorModel,
    queued: Seq<ClickSample>,
    q: FocusQuery,
    sample: InputSample,
)
    requires
        judged_by_element(q),
        !processes::listed(q.process_name@, processes::TRANSIENT_CARET_APPS@),
        q.element is None,
    ensures
        caret_detector::focus_outcome(m, queued, q, sample).1.editable == q.has_caret,
{
    processes::special_apps_take_the_fast_path(q.process_name@);
}

/// On the fast path, outside chats, design and office applications, the caret alone
/// tells: so in the search of the system.
pub proof fn on_the_fast_path_the_caret_tells(
    m: DetectorModel,
    queued: Seq<ClickSample>,
    q: FocusQuery,
    sample: InputSample,
)
    requires
        !processes::listed(q.process_name@, processes::INDICATOR_ONLY_APPS@),
        !(q.app_rule matches Some(rule) && rule@ == "ignore"@),
        processes::listed(q.process_name@, processes::CARET_FAST_PATH_APPS@),
        !processes::listed(q.process_name@, processes::TRANSIENT_CARET_APPS@),
        !processes::listed(q.process_name@, processes::DESIGN_TEXT_SHORTCUT_APPS@),
        !processes::listed(q.process_name@, processes::OFFICE_EDIT_APPS@),
    ensures
        caret_detector::focus_outcome(m, queued, q, sample).1.editable == q.has_caret,
{
}

/// The mouse stands in for the caret exactly where an editing mode is on and no caret
/// shows.
pub proof fn the_mouse_stands_in_for_the_caret(
    m: DetectorModel,
    queued: Seq<ClickSample>,
    q: FocusQuery,
    sample: InputSample,
)
    requires
        !processes::listed(q.process_name@, processes::INDICATOR_ONLY_APPS@),
        !(q.app_rule matches Some(rule) && rule@ == "ignore"@),
    ensures
        caret_detector::focus_outcome(m, queued, q, sample).1.force_mouse_indicator <==> {
            &&& edit_mode::edit_outcome(
                m.edit,
                queued,
                q.process_name@,
                q.window.process_id,
                q.has_caret,
                sample,
            ).1
            &&& !q.has_caret
        },
{
}

/// The windows and the process of a context are those that were asked about.
pub proof fn a_context_names_its_windows(
    m: DetectorModel,
    queued: Seq<ClickSample>,
    q: FocusQuery,
    sample: InputSample,
)
    ensures
        ({
            let context = caret_detector::focus_outcome(m, queued, q, sample).1;
            &&& context.foreground_hwnd == q.window.foreground_hwnd
            &&& context.focused_hwnd == q.window.focused_hwnd
            &&& context.process_id == q.window.process_id
        }),
{
}

/// A chat keeps its input for half a second in the same field, or for three and a half
/// after a paste of at most three seconds ago, and only in the same window in front.
pub proof fn dropouts_are_bridged_for_their_time(
    same_foreground: bool,
    same_focus: bool,
    last_seen: Option<Duration>,
    paste: Option<Duration>,
)
    ensures
        caret_detector::input_kept(same_foreground, same_focus, last_seen, paste) <==> {
            &&& same_foreground
            &&& last_seen matches Some(seen) && {
                ||| same_focus && seen.nanos <= 500_000_000
                ||| paste is Some && paste->0.nanos <= 3_000_000_000 && seen.nanos <= 3_500_000_000
            }
        },
{
}

/// The caret is where the first attempt that found it says, and it was found by that
/// attempt. Where none found it, there is none.
pub proof fn the_first_hit_counts(
    attempts: Seq<(caret_detector::DetectionSource, Option<caret_detector::CaretPos>)>,
)
    ensures
        ({
            let (source, pos) = caret_detector::first_hit(attempts);
            &&& pos is None <==> forall|i: int|
                0 <= i < attempts.len() ==> (#[trigger] attempts[i]).1 is None
            &&& pos is None ==> source is NotFound
            &&& pos is Some ==> exists|i: int|
                0 <= i < attempts.len() && #[trigger] attempts[i] == (source, pos) && forall|j: int|
                    0 <= j < i ==> (#[trigger] attempts[j]).1 is None
        }),
    decreases attempts.len(),
{
    if attempts.len() > 0 {
        if attempts[0].1 is Some {
            assert(attempts[0] == caret_detector::first_hit(attempts));
        } else {
            let rest = attempts.drop_first();
            the_first_hit_counts(rest);
            assert(caret_detector::first_hit(attempts) == caret_detector::first_hit(rest));
            if caret_detector::first_hit(rest).1 is Some {
                let i = choose|i: int|
                    0 <= i < rest.len() && #[trigger] rest[i] == caret_detector::first_hit(rest)
                        && forall|j: int| 0 <= j < i ==> (#[trigger] rest[j]).1 is None;
                assert(attempts[i + 1] == rest[i]);
                assert forall|j: int| 0 <= j < i + 1 implies (#[trigger] attempts[j]).1 is None by {
                    if j > 0 {
                        assert(attempts[j] == rest[j - 1]);
                    }
                }
            } else {
                assert forall|j: int| 0 <= j < attempts.len() implies (
                #[trigger] attempts[j]).1 is None by {
                    if j > 0 {
                        assert(attempts[j] == rest[j - 1]);
                    }
                }
            }
        }
    }
}

/// A caret that a window reports is at its corner, and as high as the caret or the line
/// of the font, whichever is more. A caret without an owner is none.
pub proof fn a_reported_caret_has_its_place(caret: caret_detector::GuiCaret)
    ensures
        caret_detector::reported_pos(caret) is Some <==> caret.owner_hwnd != 0,
        caret_detector::reported_pos(caret) matches Some((x, y, height)) ==> {
            &&& x == caret.screen_x
            &&& y == caret.screen_y
            &&& height >= caret.bottom - caret.top
            &&& caret.font_height matches Some(line) ==> height >= line
            &&& height == caret.bottom - caret.top || (caret.font_height matches Some(line)
                && height == line)
        },
{
}

/// The accessible caret is at the right edge of what it spans. In the corner of the
/// screen there is none, and without an answer there is none.
pub proof fn an_accessible_caret_has_its_place(x: i32, y: i32, width: i32, height: i32)
    ensures
        ({
            let answer = caret_detector::MsaaAnswer::Location { x, y, width, height };
            &&& caret_detector::accessible_pos(answer) is None <==> x == 0 && y == 0
            &&& caret_detector::accessible_pos(answer) matches Some(pos) ==> pos == (
                x + width,
                y as int,
                height as int,
            )
        }),
{
}

/// Only an answer with a place gives one.
pub proof fn no_answer_is_no_caret(answer: caret_detector::MsaaAnswer)
    ensures
        !(answer is Location) ==> caret_detector::accessible_pos(answer) is None,
{
}

/// Failures are kept in order, one behind the other, and none is lost.
pub proof fn failures_add_up(failures: Seq<char>, failure: Seq<char>)
    ensures
        failures.len() == 0 ==> caret_detector::with_failure(failures, failure) == failure,
        failures.len() > 0 ==> caret_detector::with_failure(failures, failure) == failures
            + seq![' ', '|', ' '] + failure,
{
    reveal_strlit(" | ");
    assert(" | "@ =~= seq![' ', '|', ' ']);
}

/// The detections that are configured are tried in their order, one after the other
/// until one finds the caret. Design applications are asked in one way only.
pub proof fn detections_are_tried_in_order(
    name: Seq<char>,
    rule: Option<Seq<char>>,
    methods: Seq<String>,
    attempts: Seq<(caret_detector::DetectionSource, Option<caret_detector::CaretPos>)>,
)
    ensures
        ({
            let sources = caret_detector::sources_for(name, rule, methods);
            let next = caret_detector::source_to_try(sources, attempts);
            &&& processes::listed(name, processes::GUI_ONLY_CARET_APPS@) && !processes::listed(
                name,
                processes::INDICATOR_ONLY_APPS@,
            ) && rule != Some("ignore"@) ==> sources == seq![
                caret_detector::DetectionSource::GuiInfo,
            ]
            &&& (exists|i: int| 0 <= i < attempts.len() && (#[trigger] attempts[i]).1 is Some)
                ==> next is None
            &&& attempts.len() >= sources.len() ==> next is None
            &&& (forall|i: int| 0 <= i < attempts.len() ==> (#[trigger] attempts[i]).1 is None)
                && attempts.len() < sources.len() ==> next == Some(
                sources[attempts.len() as int],
            )
        }),
{
    the_first_hit_counts(attempts);
}

/// The check finds the design application `process_id` in front, in which nothing is
/// clicked, no key leaves the text and no native control has the focus, with the pointer
/// in the shape `shape`.
pub open spec fn types_on_the_canvas(
    process_id: u32,
    shape: isize,
    check: (Seq<ClickSample>, FocusQuery, InputSample),
) -> bool {
    let (queued, q, sample) = check;
    &&& processes::listed(q.process_name@, processes::DESIGN_TEXT_SHORTCUT_APPS@)
    &&& !processes::listed(q.process_name@, processes::INDICATOR_ONLY_APPS@)
    &&& !(q.app_rule matches Some(rule) && rule@ == "ignore"@)
    &&& q.window.process_id == process_id
    &&& queued.len() == 0
    &&& sample.keys.left == 0
    &&& sample.keys.escape == 0 && !sample.escape_latched
    &&& sample.keys.ctrl == 0 || sample.keys.enter == 0
    &&& !(q.has_caret && (edit_mode::edit_like_class(edit_mode::opt_string(sample.focused_class))
        || edit_mode::edit_like_class(edit_mode::opt_string(sample.caret_class))))
    &&& sample.shape.handle == Some(shape)
}

/// The detector after the checks `checks`, in order.
pub open spec fn after_focus_checks(
    m: DetectorModel,
    checks: Seq<(Seq<ClickSample>, FocusQuery, InputSample)>,
) -> DetectorModel
    decreases checks.len(),
{
    if checks.len() == 0 {
        m
    } else {
        let (queued, q, sample) = checks.last();
        caret_detector::focus_outcome(
            after_focus_checks(m, checks.drop_last()),
            queued,
            q,
            sample,
        ).0
    }
}

/// Text that is edited on the canvas of a design application takes text at every check
/// at which it is only typed on, whatever keys are pressed, those of tools among them,
/// and however many checks there are.
pub proof fn typing_on_the_canvas_takes_text(
    m: DetectorModel,
    process_id: u32,
    shape: isize,
    checks: Seq<(Seq<ClickSample>, FocusQuery, InputSample)>,
)
    requires
        process_id != 0,
        m.edit.design is Some,
        (m.edit.design->0).process_id == process_id,
        (m.edit.design->0).text,
        !(m.edit.design->0).native,
        (m.edit.design->0).cursor == Some(shape),
        checks.len() > 0,
        forall|i: int|
            0 <= i < checks.len() ==> types_on_the_canvas(process_id, shape, #[trigger] checks[i]),
    ensures
        ({
            let (queued, q, sample) = checks.last();
            caret_detector::focus_outcome(
                after_focus_checks(m, checks.drop_last()),
                queued,
                q,
                sample,
            ).1.editable
        }),
        ({
            let after = after_focus_checks(m, checks).edit.design;
            &&& after is Some
            &&& (after->0).process_id == process_id
            &&& (after->0).text && !(after->0).native
            &&& (after->0).cursor == Some(shape)
        }),
    decreases checks.len(),
{
    let before = checks.drop_last();
    if before.len() > 0 {
        assert forall|i: int| 0 <= i < before.len() implies types_on_the_canvas(
            process_id,
            shape,
            #[trigger] before[i],
        ) by {
            assert(before[i] == checks[i]);
        }
        typing_on_the_canvas_takes_text(m, process_id, shape, before);
    }
    let (queued, q, sample) = checks.last();
    let now = after_focus_checks(m, before);
    assert(types_on_the_canvas(process_id, shape, checks[checks.len() - 1]));
    processes::special_apps_take_the_fast_path(q.process_name@);
    if processes::listed(q.process_name@, processes::TRANSIENT_CARET_APPS@) {
        processes::chats_have_no_editing_mode(q.process_name@);
    }
    editing::a_check_has_its_clicks(now.edit.keys_down.left, queued, process_id, sample);
    editing::each_key_counts(now.edit, queued, process_id, q.has_caret, sample);
    reveal(Seq::filter);
}

/// Applications are left alone exactly where they are on the list of those that only
/// show the state, or where their rule is `ignore`.
pub proof fn left_alone_by_list_or_rule(name: Seq<char>, rule: Option<Seq<char>>)
    ensures
        processes::shows_state_only(name, rule) <==> processes::listed(
            name,
            processes::INDICATOR_ONLY_APPS@,
        ) || rule == Some("ignore"@),
{
}

/// The window in front counts as focused where its thread reports no focus.
pub proof fn a_missing_focus_is_the_window_in_front(foreground: usize, reported: Option<usize>)
    ensures
        reported is None || reported == Some(0usize) ==> caret_detector::focus_or_front(
            foreground,
            reported,
        ) == foreground,
        reported is Some && reported != Some(0usize) ==> caret_detector::focus_or_front(
            foreground,
            reported,
        ) == reported->0,
{
}

/// Two contexts that are judged by their element have the same identity only where the
/// elements are the same: of one window, of one kind, and with one runtime identifier or
/// else one place.
pub proof fn identities_tell_elements_apart(
    m: DetectorModel,
    queued: Seq<ClickSample>,
    q: FocusQuery,
    sample: InputSample,
    other_q: FocusQuery,
)
    requires
        judged_by_element(q),
        judged_by_element(other_q),
        q.element is Some,
        other_q.element is Some,
        q.element->0.runtime_id is Some <==> other_q.element->0.runtime_id is Some,
        caret_detector::focus_outcome(m, queued, q, sample).1.identity
            == caret_detector::focus_outcome(m, queued, other_q, sample).1.identity,
    ensures
        q.window.foreground_hwnd == other_q.window.foreground_hwnd,
        q.element->0.native_hwnd == other_q.element->0.native_hwnd,
        q.element->0.control_type == other_q.element->0.control_type,
        q.element->0.runtime_id is Some ==> (q.element->0.runtime_id->0)@ == (
        other_q.element->0.runtime_id->0)@,
        q.element->0.runtime_id is None ==> q.element->0.automation_id@
            == other_q.element->0.automation_id@ && q.element->0.left == other_q.element->0.left
            && q.element->0.top == other_q.element->0.top,
{
    if q.element->0.runtime_id is Some {
        identity::element_identities_differ(
            q.window.foreground_hwnd,
            *(q.element->0),
            other_q.window.foreground_hwnd,
            *(other_q.element->0),
        );
    } else {
        identity::element_identities_differ_by_place(
            q.window.foreground_hwnd,
            *(q.element->0),
            other_q.window.foreground_hwnd,
            *(other_q.element->0),
        );
    }
}

/// Without an element, or on the fast path, or where the application is left alone, a
/// context is told by its windows.
pub proof fn identities_tell_windows_apart(
    m: DetectorModel,
    queued: Seq<ClickSample>,
    q: FocusQuery,
    sample: InputSample,
    other_q: FocusQuery,
)
    requires
        !judged_by_element(q) || q.element is None,
        !judged_by_element(other_q) || other_q.element is None,
        caret_detector::focus_outcome(m, queued, q, sample).1.identity
            == caret_detector::focus_outcome(m, queued, other_q, sample).1.identity,
    ensures
        q.window.foreground_hwnd == other_q.window.foreground_hwnd,
        q.window.focused_hwnd == other_q.window.focused_hwnd,
{
    identity::window_identities_differ(
        q.window.foreground_hwnd,
        q.window.focused_hwnd,
        other_q.window.foreground_hwnd,
        other_q.window.focused_hwnd,
    );
}

/// The detections have their names, and other names stand for none.
pub proof fn detections_have_names(methods: Seq<String>, method: String)
    ensures
        caret_detector::named_sources(methods.push(method)) == (if method@ == "gui_info"@ {
            caret_detector::named_sources(methods).push(caret_detector::DetectionSource::GuiInfo)
        } else if method@ == "msaa_caret"@ {
            caret_detector::named_sources(methods).push(caret_detector::DetectionSource::MsaaCaret)
        } else {
            caret_detector::named_sources(methods)
        }),
        caret_detector::named_sources(seq![]) == Seq::<caret_detector::DetectionSource>::empty(),
{
    assert(methods.push(method).drop_last() =~= methods);
}

/// An element is queried exactly where the application is judged by it.
pub proof fn elements_are_queried_where_they_count(q: FocusQuery)
    ensures
        caret_detector::element_counts(q.process_name@, processes::opt_text(q.app_rule))
            <==> judged_by_element(q),
{
}

/// A check takes all clicks that are kept, unless the application is left alone or there
/// is no process in front.
pub proof fn a_check_takes_the_clicks(queued: Seq<ClickSample>, q: FocusQuery)
    ensures
        ({
            let left_alone = processes::listed(q.process_name@, processes::INDICATOR_ONLY_APPS@) || (
            q.app_rule matches Some(rule) && rule@ == "ignore"@);
            &&& left_alone || q.window.process_id == 0 ==> caret_detector::clicks_kept(queued, q)
                == queued
            &&& !left_alone && q.window.process_id != 0 ==> caret_detector::clicks_kept(
                queued,
                q,
            ).len() == 0
        }),
{
}

/// The context of an application that is not left alone tells whether its check saw a
/// double click.
pub proof fn a_context_tells_of_double_clicks(
    m: DetectorModel,
    queued: Seq<ClickSample>,
    q: FocusQuery,
    sample: InputSample,
)
    requires
        !processes::listed(q.process_name@, processes::INDICATOR_ONLY_APPS@),
        !(q.app_rule matches Some(rule) && rule@ == "ignore"@),
        q.window.process_id != 0,
    ensures
        caret_detector::focus_outcome(m, queued, q, sample).1.input_double_click
            <==> crate::clicks::has_double_click(
            m.edit.last_left_click,
            edit_mode::check_clicks(m.edit.keys_down.left, queued, q.window.process_id, sample),
        ),
{
}

/// Each failure has its own words, those with a code the code behind them.
pub proof fn failures_have_their_words(code: u32, x: i32, y: i32, width: i32, height: i32)
    ensures
        caret_detector::failure_text(caret_detector::MsaaAnswer::NoWindow) == "MSAA:NoHwnd"@,
        caret_detector::failure_text(caret_detector::MsaaAnswer::NoObject) == "MSAA:NoAcc"@,
        caret_detector::failure_text(caret_detector::MsaaAnswer::Refused(code)) == "MSAA:Err:"@
            + crate::text::hexadecimal(code as nat),
        caret_detector::failure_text(caret_detector::MsaaAnswer::NoLocation(code)) == "MSAA:Loc:"@
            + crate::text::hexadecimal(code as nat),
        caret_detector::failure_text(
            caret_detector::MsaaAnswer::Location { x, y, width, height },
        ) == "MSAA:Zero"@,
{
}

/// A design or office application takes text exactly where its editing mode is on: a caret
/// alone does not make it.
pub proof fn editing_modes_decide(
    m: DetectorModel,
    queued: Seq<ClickSample>,
    q: FocusQuery,
    sample: InputSample,
)
    requires
        !processes::listed(q.process_name@, processes::INDICATOR_ONLY_APPS@),
        !(q.app_rule matches Some(rule) && rule@ == "ignore"@),
        processes::listed(q.process_name@, processes::DESIGN_TEXT_SHORTCUT_APPS@)
            || processes::listed(q.process_name@, processes::OFFICE_EDIT_APPS@),
    ensures
        caret_detector::focus_outcome(m, queued, q, sample).1.editable == edit_mode::edit_outcome(
            m.edit,
            queued,
            q.process_name@,
            q.window.process_id,
            q.has_caret,
            sample,
        ).1,
        caret_detector::focus_outcome(m, queued, q, sample).0.edit == edit_mode::edit_outcome(
            m.edit,
            queued,
            q.process_name@,
            q.window.process_id,
            q.has_caret,
            sample,
        ).0,
{
    the_mode_alone_decides(m, queued, q, sample);
}

/// A chat without an element in question takes text exactly where there is a caret, where
/// a click with a text cursor stands in for it, or where the input is kept from before:
/// in the same window in front, for half a second in the same field, or for three and a
/// half after a paste of at most three seconds ago.
pub proof fn chats_keep_their_input(
    m: DetectorModel,
    queued: Seq<ClickSample>,
    q: FocusQuery,
    sample: InputSample,
)
    requires
        !processes::listed(q.process_name@, processes::INDICATOR_ONLY_APPS@),
        !(q.app_rule matches Some(rule) && rule@ == "ignore"@),
        processes::listed(q.process_name@, processes::TRANSIENT_CARET_APPS@),
        q.window.process_id != 0,
        processes::listed(q.process_name@, processes::CARET_FAST_PATH_APPS@) || q.element is None,
    ensures
        ({
            let id = q.window.process_id;
            let (edit, shown) = edit_mode::edit_outcome(
                m.edit,
                queued,
                q.process_name@,
                id,
                q.has_caret,
                sample,
            );
            let (foreground, focused, at) = m.seen[id];
            let since = sample.now.nanos - at.nanos;
            caret_detector::focus_outcome(m, queued, q, sample).1.editable <==> {
                ||| q.has_caret
                ||| shown
                ||| m.seen.contains_key(id) && foreground == q.window.foreground_hwnd && {
                    ||| focused == q.window.focused_hwnd && since <= 500_000_000
                    ||| edit.paste_started.contains_key(id) && sample.now.nanos
                        - edit.paste_started[id].nanos <= 3_000_000_000 && since <= 3_500_000_000
                }
            }
        }),
{
    processes::chats_have_no_editing_mode(q.process_name@);
}

/// Where an application is left alone or is no chat, nothing is remembered of its inputs.
pub proof fn only_the_inputs_of_chats_are_remembered(
    m: DetectorModel,
    queued: Seq<ClickSample>,
    q: FocusQuery,
    sample: InputSample,
)
    requires
        !processes::listed(q.process_name@, processes::TRANSIENT_CARET_APPS@)
            || processes::listed(q.process_name@, processes::INDICATOR_ONLY_APPS@),
    ensures
        caret_detector::focus_outcome(m, queued, q, sample).0.seen == m.seen,
{
}

} // verus!
