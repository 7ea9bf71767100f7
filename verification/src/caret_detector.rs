//! Where the caret is, and whether the focused element takes text.

use vstd::prelude::*;

use crate::clicks::{ClickQueue, ClickSample};
use crate::clock;
use crate::clock::{Duration, Instant};
use crate::edit_mode;
use crate::edit_mode::{EditModel, EditTracker, InputSample};
use crate::identity;
use crate::identity::{FocusedElement, ValueAccess};
use crate::processes;
use crate::text;
use std::collections::HashMap;

verus! {

/// Time in milliseconds for which a chat keeps its input when the caret drops out.
pub const CARET_DROPOUT_GRACE_MS: u64 = 500;

/// Time in milliseconds since the last input for which a paste keeps it.
pub const PASTE_INPUT_GRACE_MS: u64 = 3500;

/// The accessibility control type of edit controls.
pub const EDIT_CONTROL_TYPE: i32 = 50004;

/// The accessibility control type of documents.
pub const DOCUMENT_CONTROL_TYPE: i32 = 50030;

/// A place of the caret: its left edge, its top, and its height.
pub type CaretPos = (i32, i32, i32);

/// How the caret was found.
#[derive(Debug, Clone, Copy, PartialEq, Eq, Structural)]
pub enum DetectionSource {
    GuiInfo,
    MsaaCaret,
    NotFound,
}

/// The detection that a configuration names.
pub open spec fn source_named(name: Seq<char>) -> Option<DetectionSource> {
    if name == "gui_info"@ {
        Some(DetectionSource::GuiInfo)
    } else if name == "msaa_caret"@ {
        Some(DetectionSource::MsaaCaret)
    } else {
        None
    }
}

impl DetectionSource {
    /// The detection of the name `s`, as configurations spell it.
    pub fn from_name(s: &str) -> (source: Option<DetectionSource>)
        ensures
            source == source_named(s@),
    {
        if text::same_text(s, "gui_info") {
            Some(DetectionSource::GuiInfo)
        } else if text::same_text(s, "msaa_caret") {
            Some(DetectionSource::MsaaCaret)
        } else {
            None
        }
    }
}

/// What is in focus, as far as switching and drawing need to know.
#[derive(Debug, PartialEq, Eq)]
pub struct FocusContext {
    /// Tells one focused element from another.
    pub identity: String,
    pub foreground_hwnd: usize,
    pub focused_hwnd: usize,
    pub process_id: u32,
    /// The focused element takes text.
    pub editable: bool,
    pub password: bool,
    /// The focused element is a document that is known to take no text.
    pub readonly_document: bool,
    /// Text is edited where no caret shows it.
    pub force_mouse_indicator: bool,
    /// The user double-clicked since the last check.
    pub input_double_click: bool,
}

/// The mathematical content of a [`FocusContext`].
#[verifier::ext_equal]
pub struct ContextModel {
    pub identity: Seq<char>,
    pub foreground_hwnd: usize,
    pub focused_hwnd: usize,
    pub process_id: u32,
    pub editable: bool,
    pub password: bool,
    pub readonly_document: bool,
    pub force_mouse_indicator: bool,
    pub input_double_click: bool,
}

impl View for FocusContext {
    type V = ContextModel;

    open spec fn view(&self) -> ContextModel {
        ContextModel {
            identity: self.identity@,
            foreground_hwnd: self.foreground_hwnd,
            focused_hwnd: self.focused_hwnd,
            process_id: self.process_id,
            editable: self.editable,
            password: self.password,
            readonly_document: self.readonly_document,
            force_mouse_indicator: self.force_mouse_indicator,
            input_double_click: self.input_double_click,
        }
    }
}

impl Clone for FocusContext {
    fn clone(&self) -> (copy: Self)
        ensures
            copy == *self,
    {
        FocusContext {
            identity: self.identity.clone(),
            foreground_hwnd: self.foreground_hwnd,
            focused_hwnd: self.focused_hwnd,
            process_id: self.process_id,
            editable: self.editable,
            password: self.password,
            readonly_document: self.readonly_document,
            force_mouse_indicator: self.force_mouse_indicator,
            input_double_click: self.input_double_click,
        }
    }
}

/// The window in front, the focused window within it, and their process. A
/// handle of zero is no window.
#[derive(Debug, Clone, Copy, PartialEq, Eq, Structural)]
pub struct FrontWindow {
    pub foreground_hwnd: usize,
    pub focused_hwnd: usize,
    pub process_id: u32,
}

/// The focus that a thread reports, or the window in front where it reports none.
pub open spec fn focus_or_front(foreground_hwnd: usize, reported_focus: Option<usize>) -> usize {
    if reported_focus is Some && reported_focus->0 != 0 {
        reported_focus->0
    } else {
        foreground_hwnd
    }
}

impl FrontWindow {
    /// The window in front, with the focus that its thread reports. Without one
    /// the window itself counts as focused.
    pub fn new(
        foreground_hwnd: usize,
        reported_focus: Option<usize>,
        process_id: u32,
    ) -> (window: FrontWindow)
        ensures
            window.foreground_hwnd == foreground_hwnd,
            window.process_id == process_id,
            window.focused_hwnd == focus_or_front(foreground_hwnd, reported_focus),
    {
        let focused_hwnd: usize = match reported_focus {
            Some(focus) => if focus != 0 {
                focus
            } else {
                foreground_hwnd
            },
            None => foreground_hwnd,
        };
        FrontWindow { foreground_hwnd, focused_hwnd, process_id }
    }
}

/// The detections that `methods` names, in order; other names are passed over.
pub open spec fn named_sources(methods: Seq<String>) -> Seq<DetectionSource>
    decreases methods.len(),
{
    if methods.len() == 0 {
        Seq::empty()
    } else {
        let rest = named_sources(methods.drop_last());
        match source_named(methods.last()@) {
            Some(source) => rest.push(source),
            None => rest,
        }
    }
}

/// The detections to try for an application, in order. Applications that only
/// show the state are left alone, and design applications answer one of them.
pub open spec fn sources_for(
    name: Seq<char>,
    rule: Option<Seq<char>>,
    methods: Seq<String>,
) -> Seq<DetectionSource> {
    if processes::shows_state_only(name, rule) {
        Seq::empty()
    } else if processes::listed(name, processes::GUI_ONLY_CARET_APPS@) {
        seq![DetectionSource::GuiInfo]
    } else {
        named_sources(methods)
    }
}

/// The number of attempts before the first that found the caret.
pub open spec fn misses(attempts: Seq<(DetectionSource, Option<CaretPos>)>) -> nat
    decreases attempts.len(),
{
    if attempts.len() == 0 || attempts[0].1 is Some {
        0
    } else {
        1 + misses(attempts.drop_first())
    }
}

/// The place that the first successful attempt found, and how.
pub open spec fn first_hit(
    attempts: Seq<(DetectionSource, Option<CaretPos>)>,
) -> (DetectionSource, Option<CaretPos>) {
    let i = misses(attempts);
    if i < attempts.len() {
        attempts[i as int]
    } else {
        (DetectionSource::NotFound, None)
    }
}

/// Attempts after the first successful one change nothing.
pub proof fn attempts_after_a_hit_do_not_matter(
    attempts: Seq<(DetectionSource, Option<CaretPos>)>,
    more: Seq<(DetectionSource, Option<CaretPos>)>,
)
    requires
        first_hit(attempts).1 is Some,
    ensures
        first_hit(attempts + more) == first_hit(attempts),
    decreases attempts.len(),
{
    if attempts.len() > 0 && attempts[0].1 is None {
        let rest = attempts.drop_first();
        assert((attempts + more).drop_first() =~= rest + more);
        attempts_after_a_hit_do_not_matter(rest, more);
    }
}

/// The detection to try after `attempts`: the next of `sources`, until one has found
/// the caret.
pub open spec fn source_to_try(
    sources: Seq<DetectionSource>,
    attempts: Seq<(DetectionSource, Option<CaretPos>)>,
) -> Option<DetectionSource> {
    if first_hit(attempts).1 is Some || attempts.len() >= sources.len() {
        None
    } else {
        Some(sources[attempts.len() as int])
    }
}

/// The number of attempts before the first that found the caret.
fn count_misses(attempts: &Vec<(DetectionSource, Option<CaretPos>)>) -> (n: usize)
    ensures
        n == misses(attempts@),
        n <= attempts.len(),
{
    let mut i: usize = 0;
    assert(attempts@.skip(0) =~= attempts@);
    while i < attempts.len()
        invariant
            i <= attempts.len(),
            misses(attempts@) == i + misses(attempts@.skip(i as int)),
        decreases attempts.len() - i,
    {
        let (_, pos) = attempts[i];
        if pos.is_some() {
            return i;
        }
        assert(attempts@.skip(i as int).drop_first() =~= attempts@.skip(i + 1));
        i += 1;
    }
    i
}

/// A hit is an attempt that found the caret.
proof fn hits_find_the_caret(attempts: Seq<(DetectionSource, Option<CaretPos>)>)
    ensures
        misses(attempts) < attempts.len() ==> attempts[misses(attempts) as int].1 is Some,
        misses(attempts) <= attempts.len(),
    decreases attempts.len(),
{
    if attempts.len() > 0 && attempts[0].1 is None {
        hits_find_the_caret(attempts.drop_first());
    }
}

/// The detection to try next, given those to try in order and the attempts so far.
/// Nothing is tried once the caret was found.
pub fn next_source(
    sources: &Vec<DetectionSource>,
    attempts: &Vec<(DetectionSource, Option<CaretPos>)>,
) -> (next: Option<DetectionSource>)
    ensures
        next == source_to_try(sources@, attempts@),
{
    let found = count_misses(attempts) < attempts.len();
    proof {
        hits_find_the_caret(attempts@);
    }
    if found || attempts.len() >= sources.len() {
        None
    } else {
        Some(sources[attempts.len()])
    }
}

/// A caret that a window reports: the window that owns it, its corner on the
/// screen, its extent within the window, and the line height of the window's font.
#[derive(Debug, Clone, Copy, PartialEq, Eq)]
pub struct GuiCaret {
    pub owner_hwnd: usize,
    pub screen_x: i32,
    pub screen_y: i32,
    pub top: i32,
    pub bottom: i32,
    pub font_height: Option<i32>,
}

/// The place of a caret that a window reports. Some windows report a caret of a
/// single pixel, so the line height of the font counts where it is larger.
pub open spec fn reported_pos(caret: GuiCaret) -> Option<(int, int, int)> {
    let height = caret.bottom - caret.top;
    if caret.owner_hwnd == 0 {
        None
    } else {
        Some(
            (
                caret.screen_x as int,
                caret.screen_y as int,
                if caret.font_height is Some && caret.font_height->0 > height {
                    caret.font_height->0 as int
                } else {
                    height
                },
            ),
        )
    }
}

/// The place as integers.
pub open spec fn pos_ints(pos: Option<CaretPos>) -> Option<(int, int, int)> {
    match pos {
        Some((x, y, height)) => Some((x as int, y as int, height as int)),
        None => None,
    }
}

/// The place of a caret that a window reports.
pub fn get_pos_via_gui_info(caret: &GuiCaret) -> (pos: Option<CaretPos>)
    requires
        caret.owner_hwnd != 0 ==> i32::MIN <= caret.bottom - caret.top <= i32::MAX,
    ensures
        pos_ints(pos) == reported_pos(*caret),
{
    if caret.owner_hwnd == 0 {
        return None;
    }
    let caret_height: i32 = caret.bottom - caret.top;
    let height: i32 = match caret.font_height {
        Some(font_height) => if font_height > caret_height {
            font_height
        } else {
            caret_height
        },
        None => caret_height,
    };
    Some((caret.screen_x, caret.screen_y, height))
}

/// What came of asking for the accessible caret of the window in front.
#[derive(Debug, Clone, Copy, PartialEq, Eq)]
pub enum MsaaAnswer {
    /// There is no window in front.
    NoWindow,
    /// The window gave no caret, with an error code.
    Refused(u32),
    /// The window gave no caret and no error.
    NoObject,
    /// The caret did not tell its place, with an error code.
    NoLocation(u32),
    /// The place of the caret. It spans the selection, where there is one.
    Location { x: i32, y: i32, width: i32, height: i32 },
}

/// The place of the accessible caret: the right edge of what it spans. A caret in
/// the corner of the screen is no caret.
pub open spec fn accessible_pos(answer: MsaaAnswer) -> Option<(int, int, int)> {
    match answer {
        MsaaAnswer::Location { x, y, width, height } if x != 0 || y != 0 => Some(
            (x + width, y as int, height as int),
        ),
        _ => None,
    }
}

/// What an answer without a place says of the failure.
pub open spec fn failure_text(answer: MsaaAnswer) -> Seq<char> {
    match answer {
        MsaaAnswer::NoWindow => "MSAA:NoHwnd"@,
        MsaaAnswer::Refused(code) => "MSAA:Err:"@ + text::hexadecimal(code as nat),
        MsaaAnswer::NoObject => "MSAA:NoAcc"@,
        MsaaAnswer::NoLocation(code) => "MSAA:Loc:"@ + text::hexadecimal(code as nat),
        MsaaAnswer::Location { .. } => "MSAA:Zero"@,
    }
}

/// The failures with one more.
pub open spec fn with_failure(failures: Seq<char>, failure: Seq<char>) -> Seq<char> {
    if failures.len() == 0 {
        failure
    } else {
        failures + " | "@ + failure
    }
}

/// When and in which windows a chat was last seen to take text, by process.
pub type SeenInputs = Map<u32, (usize, usize, Instant)>;

/// Finds the caret and follows what is in focus.
pub struct CaretDetector {
    /// How the caret was last found.
    pub last_source: DetectionSource,
    /// The failures of the accessibility caret so far.
    pub last_uia_error: String,
    /// The editing modes of the applications.
    pub edit: EditTracker,
    /// When and in which windows chats were last seen to take text, by process.
    pub transient_editable_seen: HashMap<u32, (usize, usize, Instant)>,
}

/// The mathematical content of a [`CaretDetector`].
#[verifier::ext_equal]
pub struct DetectorModel {
    /// How the caret was last found.
    pub last_source: DetectionSource,
    /// The failures of the accessibility caret so far.
    pub last_uia_error: Seq<char>,
    /// The editing modes of the applications.
    pub edit: EditModel,
    /// When and where chats were last seen to take text.
    pub seen: SeenInputs,
}

impl View for CaretDetector {
    type V = DetectorModel;

    open spec fn view(&self) -> DetectorModel {
        DetectorModel {
            last_source: self.last_source,
            last_uia_error: self.last_uia_error@,
            edit: self.edit@,
            seen: self.transient_editable_seen@,
        }
    }
}

/// Nothing has been seen yet.
pub open spec fn initial_detector() -> DetectorModel {
    DetectorModel {
        last_source: DetectionSource::NotFound,
        last_uia_error: Seq::empty(),
        edit: edit_mode::initial_edit_model(),
        seen: Map::empty(),
    }
}

/// A chat keeps its input while the caret drops out: for a moment in the same
/// field, and longer after a paste.
pub open spec fn input_kept(
    same_foreground: bool,
    same_focus: bool,
    last_seen: Option<Duration>,
    paste: Option<Duration>,
) -> bool {
    same_foreground && last_seen is Some && {
        ||| same_focus && last_seen->0.nanos <= clock::millis(CARET_DROPOUT_GRACE_MS as int)
        ||| paste is Some && paste->0.nanos <= clock::millis(
            edit_mode::PASTE_CARET_GRACE_MS as int,
        ) && last_seen->0.nanos <= clock::millis(PASTE_INPUT_GRACE_MS as int)
    }
}

/// Whether the input of `window` is kept although it does not show.
pub open spec fn input_kept_for(
    seen: SeenInputs,
    pastes: Map<u32, Instant>,
    window: FrontWindow,
    now: Instant,
) -> bool {
    let id = window.process_id;
    let last = seen[id];
    seen.contains_key(id) && input_kept(
        last.0 == window.foreground_hwnd,
        last.1 == window.focused_hwnd,
        Some(clock::span(last.2, now)),
        if pastes.contains_key(id) {
            Some(clock::span(pastes[id], now))
        } else {
            None
        },
    )
}

/// Whether the focus takes text, once the drop-outs of chats are bridged, and
/// what is remembered for that.
pub open spec fn stabilized(
    seen: SeenInputs,
    pastes: Map<u32, Instant>,
    name: Seq<char>,
    window: FrontWindow,
    now: Instant,
    editable: bool,
) -> (SeenInputs, bool) {
    if !processes::listed(name, processes::TRANSIENT_CARET_APPS@) {
        (seen, editable)
    } else if editable {
        (
            seen.insert(
                window.process_id,
                (window.foreground_hwnd, window.focused_hwnd, now),
            ),
            true,
        )
    } else {
        (seen, input_kept_for(seen, pastes, window, now))
    }
}

/// A real caret is evidence of input in this application.
pub open spec fn accepts_caret(name: Seq<char>, extra_input_apps: Seq<String>) -> bool {
    processes::listed(name, processes::CARET_COMPAT_APPS@) || processes::listed_in(
        name,
        extra_input_apps,
    )
}

/// The element takes text. A document does so when its value can be written, or
/// when it is not known to be read-only and a caret is accepted as evidence.
pub open spec fn element_takes_text(
    el: FocusedElement,
    has_caret: bool,
    accepts_caret: bool,
) -> bool {
    if el.password {
        true
    } else if el.control_type == EDIT_CONTROL_TYPE {
        el.value != ValueAccess::ReadOnly
    } else if el.control_type == DOCUMENT_CONTROL_TYPE {
        el.value == ValueAccess::Writable || (el.value != ValueAccess::ReadOnly && has_caret
            && accepts_caret)
    } else {
        has_caret && accepts_caret
    }
}

/// The element is a document that is known to take no text: one whose query failed
/// is not.
pub open spec fn is_readonly_document(el: FocusedElement, editable: bool) -> bool {
    el.control_type == DOCUMENT_CONTROL_TYPE && el.value != ValueAccess::Unknown && !editable
}

/// Only the tracked mode tells whether these applications take text.
pub open spec fn mode_alone_decides(name: Seq<char>) -> bool {
    processes::listed(name, processes::DESIGN_TEXT_SHORTCUT_APPS@) || processes::listed(
        name,
        processes::OFFICE_EDIT_APPS@,
    )
}

/// No accessibility query is made for this application.
pub open spec fn takes_fast_path(name: Seq<char>) -> bool {
    processes::listed(name, processes::CARET_FAST_PATH_APPS@)
}

/// Whether the focus takes text, before the drop-outs of chats are bridged.
pub open spec fn takes_text(
    name: Seq<char>,
    has_caret: bool,
    edit_mode: bool,
    element: Option<FocusedElement>,
    extra_input_apps: Seq<String>,
) -> bool {
    if takes_fast_path(name) {
        edit_mode || (has_caret && !mode_alone_decides(name))
    } else {
        match element {
            Some(el) => edit_mode || element_takes_text(
                el,
                has_caret,
                accepts_caret(name, extra_input_apps),
            ),
            None => edit_mode || has_caret,
        }
    }
}

/// The context of an application of which nothing but its windows is known.
pub open spec fn bare_context(window: FrontWindow) -> ContextModel {
    ContextModel {
        identity: identity::window_identity(window.foreground_hwnd, window.focused_hwnd),
        foreground_hwnd: window.foreground_hwnd,
        focused_hwnd: window.focused_hwnd,
        process_id: window.process_id,
        editable: false,
        password: false,
        readonly_document: false,
        force_mouse_indicator: false,
        input_double_click: false,
    }
}

/// What a check of the focus is told.
pub struct FocusQuery<'a> {
    pub window: FrontWindow,
    /// The name of the executable, or nothing when it is not known.
    pub process_name: &'a str,
    /// The rule that the configuration holds for the application.
    pub app_rule: Option<&'a str>,
    /// A caret was found.
    pub has_caret: bool,
    /// The focused element, when it was queried.
    pub element: Option<&'a FocusedElement>,
    /// Further applications in which a caret is evidence of input.
    pub extra_input_apps: &'a Vec<String>,
}

pub open spec fn opt_element(element: Option<&FocusedElement>) -> Option<FocusedElement> {
    match element {
        Some(el) => Some(*el),
        None => None,
    }
}

/// The detector and the context after a check of the focus.
pub open spec fn focus_outcome(
    m: DetectorModel,
    queued: Seq<ClickSample>,
    q: FocusQuery,
    sample: InputSample,
) -> (DetectorModel, ContextModel) {
    let name = q.process_name@;
    if processes::shows_state_only(name, processes::opt_text(q.app_rule)) {
        (m, bare_context(q.window))
    } else {
        let element = if takes_fast_path(name) {
            None
        } else {
            opt_element(q.element)
        };
        let (edit, edit_mode) = edit_mode::edit_outcome(
            m.edit,
            queued,
            name,
            q.window.process_id,
            q.has_caret,
            sample,
        );
        let (seen, editable) = stabilized(
            m.seen,
            edit.paste_started,
            name,
            q.window,
            sample.now,
            takes_text(name, q.has_caret, edit_mode, element, q.extra_input_apps@),
        );
        (
            DetectorModel { edit, seen, ..m },
            ContextModel {
                identity: match element {
                    Some(el) => identity::element_identity(q.window.foreground_hwnd, el),
                    None => bare_context(q.window).identity,
                },
                editable,
                password: element matches Some(el) && el.password,
                readonly_document: element matches Some(el) && is_readonly_document(el, editable),
                force_mouse_indicator: edit_mode && !q.has_caret,
                input_double_click: edit.input_double_click,
                ..bare_context(q.window)
            },
        )
    }
}

/// The clicks that are kept after a check of the focus.
pub open spec fn clicks_kept(queued: Seq<ClickSample>, q: FocusQuery) -> Seq<ClickSample> {
    if processes::shows_state_only(q.process_name@, processes::opt_text(q.app_rule)) {
        queued
    } else {
        edit_mode::clicks_left(queued, q.window.process_id)
    }
}

/// Whether a chat keeps its input although the caret dropped out.
pub fn should_preserve_transient_editable(
    same_foreground: bool,
    same_focus: bool,
    last_seen_elapsed: Option<Duration>,
    paste_elapsed: Option<Duration>,
) -> (kept: bool)
    ensures
        kept == input_kept(same_foreground, same_focus, last_seen_elapsed, paste_elapsed),
{
    if !same_foreground {
        return false;
    }
    match last_seen_elapsed {
        Some(last_seen) => {
            let short_dropout = same_focus && last_seen.at_most(CARET_DROPOUT_GRACE_MS);
            let paste_dropout = match paste_elapsed {
                Some(paste) => paste.at_most(edit_mode::PASTE_CARET_GRACE_MS)
                    && last_seen.at_most(PASTE_INPUT_GRACE_MS),
                None => false,
            };
            short_dropout || paste_dropout
        },
        None => false,
    }
}

/// The focused element of the application is worth an accessibility query.
pub open spec fn element_counts(name: Seq<char>, rule: Option<Seq<char>>) -> bool {
    !processes::shows_state_only(name, rule) && !takes_fast_path(name)
}

/// Whether the focused element of `process_name` is worth an accessibility query.
pub fn needs_element(process_name: &str, app_rule: Option<&str>) -> (yes: bool)
    ensures
        yes == element_counts(process_name@, processes::opt_text(app_rule)),
{
    !processes::process_is_indicator_only(process_name, app_rule) && !processes::process_matches(
        process_name,
        &processes::CARET_FAST_PATH_APPS,
    )
}

/// Whether the element takes text.
fn element_editable(el: &FocusedElement, has_caret: bool, accepts: bool) -> (yes: bool)
    ensures
        yes == element_takes_text(*el, has_caret, accepts),
{
    if el.password {
        return true;
    }
    if el.control_type == EDIT_CONTROL_TYPE {
        el.value != ValueAccess::ReadOnly
    } else if el.control_type == DOCUMENT_CONTROL_TYPE {
        el.value == ValueAccess::Writable || (el.value != ValueAccess::ReadOnly && has_caret
            && accepts)
    } else {
        has_caret && accepts
    }
}

impl CaretDetector {
    pub fn new() -> (detector: CaretDetector)
        ensures
            detector@ == initial_detector(),
    {
        CaretDetector {
            last_source: DetectionSource::NotFound,
            last_uia_error: String::new(),
            edit: EditTracker::new(),
            transient_editable_seen: HashMap::new(),
        }
    }

    /// Bridges the drop-outs of the caret in chats. What takes text stays so, and
    /// nothing else is bridged. A chat that shows no input keeps the one that was last
    /// seen in the same window in front, for a moment that nothing extends.
    pub fn stabilize_transient_editable(
        &mut self,
        process_name: &str,
        window: FrontWindow,
        now: Instant,
        editable: bool,
    ) -> (stable: bool)
        ensures
            ({
                let (seen, result) = stabilized(
                    old(self)@.seen,
                    old(self)@.edit.paste_started,
                    process_name@,
                    window,
                    now,
                    editable,
                );
                &&& stable == result
                &&& final(self)@ == (DetectorModel { seen, ..old(self)@ })
            }),
            editable ==> stable,
            !processes::listed(process_name@, processes::TRANSIENT_CARET_APPS@) ==> stable
                == editable && final(self)@ == old(self)@,
            !editable ==> final(self)@ == old(self)@,
            processes::listed(process_name@, processes::TRANSIENT_CARET_APPS@) && !editable
                && stable ==> {
                &&& old(self)@.seen.contains_key(window.process_id)
                &&& old(self)@.seen[window.process_id].0 == window.foreground_hwnd
                &&& clock::elapsed(old(self)@.seen[window.process_id].2, now) <= clock::millis(
                    PASTE_INPUT_GRACE_MS as int,
                )
            },
    {
        if !processes::process_matches(process_name, &processes::TRANSIENT_CARET_APPS) {
            return editable;
        }
        if editable {
            let _ = self.transient_editable_seen.insert(
                window.process_id,
                (window.foreground_hwnd, window.focused_hwnd, now),
            );
            return true;
        }
        let paste_elapsed = match self.edit.paste_start(window.process_id) {
            Some(at) => Some(now.duration_since(at)),
            None => None,
        };
        match self.transient_editable_seen.get(&window.process_id) {
            Some(last) => should_preserve_transient_editable(
                last.0 == window.foreground_hwnd,
                last.1 == window.focused_hwnd,
                Some(now.duration_since(last.2)),
                paste_elapsed,
            ),
            None => false,
        }
    }

    /// Follows a check of what is in focus.
    pub fn focus_context(
        &mut self,
        queue: &mut ClickQueue,
        query: &FocusQuery,
        sample: &InputSample,
    ) -> (context: FocusContext)
        ensures
            (final(self)@, context@) == focus_outcome(old(self)@, old(queue)@, *query, *sample),
            final(queue)@ == clicks_kept(old(queue)@, *query),
            old(queue).wf() ==> final(queue).wf(),
    {
        let window = query.window;
        let window_identity = identity::identity_of_window(
            window.foreground_hwnd,
            window.focused_hwnd,
        );
        if processes::process_is_indicator_only(query.process_name, query.app_rule) {
            return FocusContext {
                identity: window_identity,
                foreground_hwnd: window.foreground_hwnd,
                focused_hwnd: window.focused_hwnd,
                process_id: window.process_id,
                editable: false,
                password: false,
                readonly_document: false,
                force_mouse_indicator: false,
                input_double_click: false,
            };
        }
        let edit_mode = self.edit.update_application_edit_mode(
            queue,
            query.process_name,
            window.process_id,
            query.has_caret,
            sample,
        );
        let input_double_click = self.edit.saw_double_click();
        let fast = processes::process_matches(
            query.process_name,
            &processes::CARET_FAST_PATH_APPS,
        );
        let strict = processes::process_matches(
            query.process_name,
            &processes::DESIGN_TEXT_SHORTCUT_APPS,
        ) || processes::process_matches(query.process_name, &processes::OFFICE_EDIT_APPS);
        let element = if fast {
            None
        } else {
            query.element
        };
        let found = match element {
            Some(el) => {
                let accepts = processes::process_matches(
                    query.process_name,
                    &processes::CARET_COMPAT_APPS,
                ) || processes::process_matches_any(query.process_name, query.extra_input_apps);
                edit_mode || element_editable(el, query.has_caret, accepts)
            },
            None => edit_mode || (query.has_caret && !(fast && strict)),
        };
        let editable = self.stabilize_transient_editable(
            query.process_name,
            window,
            sample.now,
            found,
        );
        let (identity, password, readonly_document) = match element {
            Some(el) => (
                identity::identity_of_element(window.foreground_hwnd, el),
                el.password,
                el.control_type == DOCUMENT_CONTROL_TYPE && el.value != ValueAccess::Unknown
                    && !editable,
            ),
            None => (window_identity, false, false),
        };
        FocusContext {
            identity,
            foreground_hwnd: window.foreground_hwnd,
            focused_hwnd: window.focused_hwnd,
            process_id: window.process_id,
            editable,
            password,
            readonly_document,
            force_mouse_indicator: edit_mode && !query.has_caret,
            input_double_click,
        }
    }

    /// The detections to try for `process_name`, in order.
    pub fn caret_sources(
        process_name: &str,
        app_rule: Option<&str>,
        methods: &Vec<String>,
    ) -> (sources: Vec<DetectionSource>)
        ensures
            sources@ == sources_for(process_name@, processes::opt_text(app_rule), methods@),
    {
        let mut sources: Vec<DetectionSource> = Vec::new();
        if processes::process_is_indicator_only(process_name, app_rule) {
            return sources;
        }
        if processes::process_matches(process_name, &processes::GUI_ONLY_CARET_APPS) {
            sources.push(DetectionSource::GuiInfo);
            assert(sources@ =~= seq![DetectionSource::GuiInfo]);
            return sources;
        }
        let mut i: usize = 0;
        assert(methods@.take(0) =~= Seq::empty());
        while i < methods.len()
            invariant
                i <= methods.len(),
                sources@ == named_sources(methods@.take(i as int)),
            decreases methods.len() - i,
        {
            if let Some(source) = DetectionSource::from_name(methods[i].as_str()) {
                sources.push(source);
            }
            assert(methods@.take(i + 1).drop_last() =~= methods@.take(i as int));
            i += 1;
        }
        assert(methods@.take(i as int) =~= methods@);
        sources
    }

    /// The place of the caret, out of the attempts to find it.
    pub fn get_caret_pos(
        &mut self,
        attempts: &Vec<(DetectionSource, Option<CaretPos>)>,
    ) -> (pos: Option<CaretPos>)
        ensures
            pos == first_hit(attempts@).1,
            final(self).last_source == first_hit(attempts@).0,
            final(self).last_uia_error@ == old(self).last_uia_error@,
            final(self)@ == (DetectorModel {
                last_source: first_hit(attempts@).0,
                ..old(self)@
            }),
    {
        let i: usize = count_misses(attempts);
        if i < attempts.len() {
            let (source, pos) = attempts[i];
            self.last_source = source;
            pos
        } else {
            self.last_source = DetectionSource::NotFound;
            None
        }
    }

    /// Notes a failure of the accessible caret.
    fn append_error(&mut self, failure: &str)
        ensures
            final(self)@ == (DetectorModel {
                last_uia_error: with_failure(old(self)@.last_uia_error, failure@),
                ..old(self)@
            }),
    {
        if self.last_uia_error.as_str().unicode_len() > 0 {
            self.last_uia_error.append(" | ");
        }
        self.last_uia_error.append(failure);
        assert(self.last_uia_error@ =~= with_failure(old(self)@.last_uia_error, failure@));
    }

    /// Notes a failure of the accessible caret with its error code.
    fn append_error_code(&mut self, failure: &str, code: u32)
        ensures
            final(self)@ == (DetectorModel {
                last_uia_error: with_failure(
                    old(self)@.last_uia_error,
                    failure@ + text::hexadecimal(code as nat),
                ),
                ..old(self)@
            }),
    {
        let mut message = String::new();
        message.append(failure);
        text::push_hexadecimal(&mut message, code);
        assert(message@ =~= failure@ + text::hexadecimal(code as nat));
        self.append_error(message.as_str());
    }

    /// The place of the accessible caret. A failure is noted.
    pub fn get_pos_via_msaa_caret(&mut self, answer: MsaaAnswer) -> (pos: Option<CaretPos>)
        requires
            accessible_pos(answer) matches Some((right, _, _)) ==> i32::MIN <= right
                <= i32::MAX,
        ensures
            pos_ints(pos) == accessible_pos(answer),
            final(self).last_source == old(self).last_source,
            final(self).last_uia_error@ == (if pos is Some {
                old(self).last_uia_error@
            } else {
                with_failure(old(self).last_uia_error@, failure_text(answer))
            }),
            pos is Some ==> final(self)@ == old(self)@,
            pos is None ==> final(self)@ == (DetectorModel {
                last_uia_error: with_failure(old(self)@.last_uia_error, failure_text(answer)),
                ..old(self)@
            }),
    {
        match answer {
            MsaaAnswer::NoWindow => self.append_error("MSAA:NoHwnd"),
            MsaaAnswer::Refused(code) => self.append_error_code("MSAA:Err:", code),
            MsaaAnswer::NoObject => self.append_error("MSAA:NoAcc"),
            MsaaAnswer::NoLocation(code) => self.append_error_code("MSAA:Loc:", code),
            MsaaAnswer::Location { x, y, width, height } => {
                if x != 0 || y != 0 {
                    return Some((x + width, y, height));
                }
                self.append_error("MSAA:Zero");
            },
        }
        None
    }
}

impl Default for CaretDetector {
    fn default() -> (detector: CaretDetector)
        ensures
            detector@ == initial_detector(),
    {
        CaretDetector::new()
    }
}

} // verus!
