//! Switching the input language with the focus.
//!
//! A switch is made once when the focus comes to rest in another context, so what
//! the user chooses by hand within one input stays.

use vstd::prelude::*;

use crate::caret_detector::{ContextModel, FocusContext};
use crate::clock;
use crate::clock::{Duration, Instant};
use crate::processes;
use crate::text;
use std::collections::{HashMap, HashSet};

verus! {

/// Time in milliseconds between two attempts to bring a design application back
/// to English.
pub const ADOBE_ENGLISH_RETRY_MS: u64 = 120;

/// Time in milliseconds for which the switch to Chinese is repeated after an
/// input was entered.
pub const EDITABLE_ENTRY_RETRY_WINDOW_MS: u64 = 260;

/// Time in milliseconds between two such repetitions.
pub const EDITABLE_ENTRY_RETRY_INTERVAL_MS: u64 = 70;

/// Time in milliseconds for which a double click keeps the language that it chose.
pub const DOUBLE_CLICK_HOLD_MS: u64 = 1500;

/// A language to switch to.
#[derive(Debug, Clone, Copy, PartialEq, Eq, Structural)]
pub enum LanguageTarget {
    Chinese,
    English,
}

/// What tells one context from another. Applications that draw their own inputs
/// have one element for all of them, so it counts too whether text is taken.
#[derive(Debug, Eq)]
pub struct SwitchContextKey {
    pub identity: String,
    pub editable: bool,
    pub password: bool,
}

/// The mathematical content of a [`SwitchContextKey`].
#[verifier::ext_equal]
pub struct KeyModel {
    pub identity: Seq<char>,
    pub editable: bool,
    pub password: bool,
}

impl View for SwitchContextKey {
    type V = KeyModel;

    open spec fn view(&self) -> KeyModel {
        KeyModel { identity: self.identity@, editable: self.editable, password: self.password }
    }
}

/// What tells the context `c` from another.
pub open spec fn key_of(c: ContextModel) -> KeyModel {
    KeyModel { identity: c.identity, editable: c.editable, password: c.password }
}

impl PartialEq for SwitchContextKey {
    fn eq(&self, other: &SwitchContextKey) -> (same: bool) {
        self.editable == other.editable && self.password == other.password && text::same_text(
            self.identity.as_str(),
            other.identity.as_str(),
        )
    }
}

impl vstd::std_specs::cmp::PartialEqSpecImpl for SwitchContextKey {
    open spec fn obeys_eq_spec() -> bool {
        true
    }

    open spec fn eq_spec(&self, other: &SwitchContextKey) -> bool {
        self@ == other@
    }
}

impl Clone for SwitchContextKey {
    fn clone(&self) -> (copy: Self)
        ensures
            copy == *self,
    {
        SwitchContextKey {
            identity: self.identity.clone(),
            editable: self.editable,
            password: self.password,
        }
    }
}

impl From<&FocusContext> for SwitchContextKey {
    fn from(context: &FocusContext) -> (key: SwitchContextKey) {
        SwitchContextKey {
            identity: context.identity.clone(),
            editable: context.editable,
            password: context.password,
        }
    }
}

impl vstd::std_specs::convert::FromSpecImpl<&FocusContext> for SwitchContextKey {
    open spec fn obeys_from_spec() -> bool {
        true
    }

    open spec fn from_spec(context: &FocusContext) -> SwitchContextKey {
        SwitchContextKey {
            identity: context.identity,
            editable: context.editable,
            password: context.password,
        }
    }
}

/// The content of an optional context.
pub open spec fn opt_context(c: Option<FocusContext>) -> Option<ContextModel> {
    match c {
        Some(context) => Some(context@),
        None => None,
    }
}

/// The content of an optional key.
pub open spec fn opt_key(k: Option<SwitchContextKey>) -> Option<KeyModel> {
    match k {
        Some(key) => Some(key@),
        None => None,
    }
}

/// The content of an entry into an input.
pub open spec fn opt_entry(e: Option<(SwitchContextKey, Instant)>) -> Option<(KeyModel, Instant)> {
    match e {
        Some((key, at)) => Some((key@, at)),
        None => None,
    }
}

/// The focus came to another context than `candidate`.
pub open spec fn context_changed(candidate: Option<ContextModel>, context: ContextModel) -> bool {
    match candidate {
        Some(current) => key_of(current) != key_of(context),
        None => true,
    }
}

/// Takes over the latest context. The events of one check are always taken over,
/// but they do not make it another context.
pub fn refresh_candidate(
    candidate: &mut Option<FocusContext>,
    context: FocusContext,
) -> (change: (bool, SwitchContextKey))
    ensures
        change.0 == context_changed(opt_context(*old(candidate)), context@),
        change.1@ == key_of(context@),
        *final(candidate) == Some(context),
{
    let next_key = SwitchContextKey::from(&context);
    let changed = match candidate.as_ref() {
        Some(current) => SwitchContextKey::from(current) != next_key,
        None => true,
    };
    *candidate = Some(context);
    (changed, next_key)
}

/// Whether `process_name` is never switched.
pub fn is_indicator_only_process(process_name: &str) -> (yes: bool)
    ensures
        yes == processes::listed(process_name@, processes::INDICATOR_ONLY_APPS@),
{
    processes::process_matches(process_name, &processes::INDICATOR_ONLY_APPS)
}

/// Whether `process_name` is one of the design applications.
pub fn is_adobe_design_process(process_name: &str) -> (yes: bool)
    ensures
        yes == processes::listed(process_name@, processes::DESIGN_TEXT_SHORTCUT_APPS@),
{
    processes::process_matches(process_name, &processes::DESIGN_TEXT_SHORTCUT_APPS)
}

/// Whether `process_name` is one of the office applications.
pub fn is_office_edit_process(process_name: &str) -> (yes: bool)
    ensures
        yes == processes::listed(process_name@, processes::OFFICE_EDIT_APPS@),
{
    processes::process_matches(process_name, &processes::OFFICE_EDIT_APPS)
}

/// A double click toggles the language, except where it has a meaning of its own.
pub open spec fn toggles_on_double_click(name: Seq<char>) -> bool {
    &&& !processes::listed(name, processes::INDICATOR_ONLY_APPS@)
    &&& !processes::listed(name, processes::DESIGN_TEXT_SHORTCUT_APPS@)
    &&& !processes::listed(name, processes::OFFICE_EDIT_APPS@)
}

/// Whether a double click toggles the language in `process_name`.
pub fn supports_double_click_toggle(process_name: &str) -> (yes: bool)
    ensures
        yes == toggles_on_double_click(process_name@),
{
    !is_indicator_only_process(process_name) && !is_adobe_design_process(process_name)
        && !is_office_edit_process(process_name)
}

/// The other language.
pub open spec fn toggled(chinese_mode: bool) -> LanguageTarget {
    if chinese_mode {
        LanguageTarget::English
    } else {
        LanguageTarget::Chinese
    }
}

/// The language that a double click asks for.
pub fn double_click_target(chinese_mode: bool) -> (target: LanguageTarget)
    ensures
        target == toggled(chinese_mode),
{
    if chinese_mode {
        LanguageTarget::English
    } else {
        LanguageTarget::Chinese
    }
}

/// A design application outside its text is brought back to English as long as it
/// stays in Chinese, at intervals.
pub open spec fn english_due(
    adobe_auto: bool,
    editable: bool,
    chinese_mode: bool,
    since_last_attempt: Option<Duration>,
) -> bool {
    &&& adobe_auto
    &&& !editable
    &&& chinese_mode
    &&& (since_last_attempt matches Some(d) ==> d.nanos >= clock::millis(
        ADOBE_ENGLISH_RETRY_MS as int,
    ))
}

/// Whether a design application is to be brought back to English now.
pub fn should_enforce_adobe_english(
    adobe_auto: bool,
    editable: bool,
    chinese_mode: bool,
    since_last_attempt: Option<Duration>,
) -> (due: bool)
    ensures
        due == english_due(adobe_auto, editable, chinese_mode, since_last_attempt),
{
    adobe_auto && !editable && chinese_mode && match since_last_attempt {
        Some(elapsed) => elapsed.at_least(ADOBE_ENGLISH_RETRY_MS),
        None => true,
    }
}

/// The switch to Chinese is repeated shortly after an input was entered, at
/// intervals: the input may not have had an input method at first.
pub open spec fn chinese_due(
    target: LanguageTarget,
    chinese_mode: bool,
    since_entry: Option<Duration>,
    since_last_attempt: Option<Duration>,
) -> bool {
    &&& target == LanguageTarget::Chinese
    &&& !chinese_mode
    &&& since_entry matches Some(d) && d.nanos <= clock::millis(
        EDITABLE_ENTRY_RETRY_WINDOW_MS as int,
    )
    &&& (since_last_attempt matches Some(d) ==> d.nanos >= clock::millis(
        EDITABLE_ENTRY_RETRY_INTERVAL_MS as int,
    ))
}

/// Whether the switch to Chinese is to be repeated now.
pub fn should_retry_editable_chinese(
    target: LanguageTarget,
    chinese_mode: bool,
    since_entry: Option<Duration>,
    since_last_attempt: Option<Duration>,
) -> (due: bool)
    ensures
        due == chinese_due(target, chinese_mode, since_entry, since_last_attempt),
{
    let in_window = match since_entry {
        Some(elapsed) => elapsed.at_most(EDITABLE_ENTRY_RETRY_WINDOW_MS),
        None => false,
    };
    let rested = match since_last_attempt {
        Some(elapsed) => elapsed.at_least(EDITABLE_ENTRY_RETRY_INTERVAL_MS),
        None => true,
    };
    target == LanguageTarget::Chinese && !chinese_mode && in_window && rested
}

/// The rule of an application for which the configuration holds none.
pub open spec fn default_rule(name: Seq<char>) -> Seq<char> {
    if processes::listed(name, processes::INDICATOR_ONLY_APPS@) {
        "ignore"@
    } else {
        "auto"@
    }
}

/// The rule of `process_name` where the configuration holds none.
pub fn default_rule_for_process(process_name: &str) -> (rule: &'static str)
    ensures
        rule@ == default_rule(process_name@),
{
    if is_indicator_only_process(process_name) {
        "ignore"
    } else {
        "auto"
    }
}

/// The rule in force for an application, given the configured one. Some
/// applications are left alone whatever is configured.
pub open spec fn rule_in_force(name: Seq<char>, configured: Option<Seq<char>>) -> Seq<char> {
    if processes::listed(name, processes::INDICATOR_ONLY_APPS@) {
        "ignore"@
    } else {
        match configured {
            Some(rule) => rule,
            None => default_rule(name),
        }
    }
}

fn rule_for<'a>(process_name: &str, app_rule: Option<&'a str>) -> (rule: &'a str)
    ensures
        rule@ == rule_in_force(process_name@, processes::opt_text(app_rule)),
{
    if is_indicator_only_process(process_name) {
        return "ignore";
    }
    match app_rule {
        Some(rule) => rule,
        None => default_rule_for_process(process_name),
    }
}

/// The language that a rule asks for in a context, if any. A fixed language goes
/// before the context; otherwise passwords are typed in English and other text in
/// Chinese.
pub open spec fn language_for(rule: Seq<char>, password: bool, editable: bool) -> Option<
    LanguageTarget,
> {
    if rule == "ignore"@ {
        None
    } else if rule == "chinese"@ {
        Some(LanguageTarget::Chinese)
    } else if rule == "english"@ {
        Some(LanguageTarget::English)
    } else if editable && !password {
        Some(LanguageTarget::Chinese)
    } else {
        Some(LanguageTarget::English)
    }
}

/// The language that `rule` asks for, if any.
pub fn target_for(rule: &str, password: bool, editable: bool) -> (target: Option<LanguageTarget>)
    ensures
        target == language_for(rule@, password, editable),
{
    if text::same_text(rule, "ignore") {
        None
    } else if text::same_text(rule, "chinese") {
        Some(LanguageTarget::Chinese)
    } else if text::same_text(rule, "english") {
        Some(LanguageTarget::English)
    } else if editable && !password {
        Some(LanguageTarget::Chinese)
    } else {
        Some(LanguageTarget::English)
    }
}

/// A switch to be made: the windows to tell, and the language.
#[derive(Debug, Clone, Copy, PartialEq, Eq, Structural)]
pub struct SwitchRequest {
    pub focused_hwnd: usize,
    pub foreground_hwnd: usize,
    pub target: LanguageTarget,
}

/// The facts of one check beside the focus itself.
pub struct Surroundings<'a> {
    pub now: Instant,
    /// Switching is turned on.
    pub enabled: bool,
    /// The input method is in Chinese mode.
    pub chinese_mode: bool,
    /// Time in milliseconds for which the focus has to rest outside inputs.
    pub settle_ms: u64,
    /// The name of the executable in focus, or nothing when it is not known.
    pub process_name: &'a str,
    /// The rule that the configuration holds for it.
    pub app_rule: Option<&'a str>,
}

/// Decides when to switch the input language.
pub struct AutoSwitcher {
    candidate: Option<FocusContext>,
    candidate_since: Instant,
    applied_context: Option<SwitchContextKey>,
    enabled_last: bool,
    adobe_editable_processes: HashSet<u32>,
    adobe_english_attempts: HashMap<u32, Instant>,
    editable_entry: Option<(SwitchContextKey, Instant)>,
    editable_entry_last_attempt: Option<Instant>,
    manual_double_click_hold: Option<(u32, usize, Instant)>,
}

/// The mathematical content of an [`AutoSwitcher`].
#[verifier::ext_equal]
pub struct SwitchModel {
    /// The context of the last check.
    pub candidate: Option<ContextModel>,
    /// When the focus came to it.
    pub since: Instant,
    /// The context for which the last switch was made.
    pub applied: Option<KeyModel>,
    /// Switching was turned on at the last check.
    pub enabled: bool,
    /// The design applications in which text was edited.
    pub adobe_editable: Set<u32>,
    /// When each design application was last brought back to English.
    pub adobe_attempts: Map<u32, Instant>,
    /// The input that was entered last, and when, until it is in Chinese.
    pub entry: Option<(KeyModel, Instant)>,
    /// When the switch to Chinese was last asked for in it.
    pub entry_attempt: Option<Instant>,
    /// The process and window of the last double click, and when it was.
    pub hold: Option<(u32, usize, Instant)>,
}

impl View for AutoSwitcher {
    type V = SwitchModel;

    closed spec fn view(&self) -> SwitchModel {
        SwitchModel {
            candidate: opt_context(self.candidate),
            since: self.candidate_since,
            applied: opt_key(self.applied_context),
            enabled: self.enabled_last,
            adobe_editable: self.adobe_editable_processes@,
            adobe_attempts: self.adobe_english_attempts@,
            entry: opt_entry(self.editable_entry),
            entry_attempt: self.editable_entry_last_attempt,
            hold: self.manual_double_click_hold,
        }
    }
}

/// Nothing was seen and nothing switched.
pub open spec fn initial_switcher(enabled: bool, now: Instant) -> SwitchModel {
    SwitchModel {
        candidate: None,
        since: now,
        applied: None,
        enabled,
        adobe_editable: Set::empty(),
        adobe_attempts: Map::empty(),
        entry: None,
        entry_attempt: None,
        hold: None,
    }
}

/// The switcher after a check while switching is turned off.
pub open spec fn switched_off(m: SwitchModel) -> SwitchModel {
    SwitchModel { enabled: false, entry: None, entry_attempt: None, hold: None, ..m }
}

/// The switcher once switching is turned on again: it starts over.
pub open spec fn switched_on(m: SwitchModel) -> SwitchModel {
    if m.enabled {
        m
    } else {
        SwitchModel {
            candidate: None,
            applied: None,
            enabled: true,
            entry: None,
            entry_attempt: None,
            hold: None,
            ..m
        }
    }
}

/// The switcher once it took over the context `c`.
pub open spec fn focused(m: SwitchModel, c: ContextModel, now: Instant) -> SwitchModel {
    let hold = if c.editable {
        m.hold
    } else {
        None
    };
    if context_changed(m.candidate, c) {
        SwitchModel {
            candidate: Some(c),
            since: now,
            entry: if c.editable && !c.password {
                Some((key_of(c), now))
            } else {
                None
            },
            entry_attempt: None,
            hold,
            ..m
        }
    } else {
        SwitchModel { candidate: Some(c), hold, ..m }
    }
}

/// Outside inputs the focus has to come to rest first.
pub open spec fn still_settling(m: SwitchModel, c: ContextModel, o: Surroundings) -> bool {
    !c.editable && (context_changed(m.candidate, c) || clock::elapsed(m.since, o.now)
        < clock::millis(o.settle_ms as int))
}

/// The language of the input was chosen by a double click a moment ago.
pub open spec fn held(m: SwitchModel, c: ContextModel, now: Instant) -> bool {
    m.hold matches Some((process_id, focused_hwnd, at)) && process_id == c.process_id
        && focused_hwnd == c.focused_hwnd && clock::elapsed(at, now) <= clock::millis(
        DOUBLE_CLICK_HOLD_MS as int,
    )
}

/// The input `c` was entered and is not known to be in Chinese yet.
pub open spec fn entering(m: SwitchModel, c: ContextModel) -> bool {
    m.entry matches Some((key, _)) && key == key_of(c)
}

/// A switch for the context `c`.
pub open spec fn request(c: ContextModel, target: LanguageTarget) -> SwitchRequest {
    SwitchRequest {
        focused_hwnd: c.focused_hwnd,
        foreground_hwnd: c.foreground_hwnd,
        target,
    }
}

/// The switcher has done what the context `c` asks for.
pub open spec fn applied(m: SwitchModel, c: ContextModel) -> SwitchModel {
    SwitchModel { applied: Some(key_of(c)), entry: None, entry_attempt: None, ..m }
}

/// The rule is automatic and the application is a design application.
pub open spec fn adobe_auto(rule: Seq<char>, name: Seq<char>) -> bool {
    rule == "auto"@ && processes::listed(name, processes::DESIGN_TEXT_SHORTCUT_APPS@)
}

/// What becomes of the language `target` that the rule asks for where no double
/// click is in the way: it is asked for once in each context, and again only
/// while it is due.
pub open spec fn automatic(
    m: SwitchModel,
    c: ContextModel,
    o: Surroundings,
    adobe_auto: bool,
    target: LanguageTarget,
) -> (SwitchModel, Option<SwitchRequest>) {
    let rested = SwitchModel {
        hold: if held(m, c, o.now) {
            m.hold
        } else {
            None
        },
        entry: if o.chinese_mode && entering(m, c) {
            None
        } else {
            m.entry
        },
        entry_attempt: if o.chinese_mode && entering(m, c) {
            None
        } else {
            m.entry_attempt
        },
        ..m
    };
    let again = english_due(
        adobe_auto,
        c.editable,
        o.chinese_mode,
        if rested.adobe_attempts.contains_key(c.process_id) {
            Some(clock::span(rested.adobe_attempts[c.process_id], o.now))
        } else {
            None
        },
    ) || chinese_due(
        target,
        o.chinese_mode,
        match rested.entry {
            Some((key, at)) if key == key_of(c) => Some(clock::span(at, o.now)),
            _ => None,
        },
        match rested.entry_attempt {
            Some(at) => Some(clock::span(at, o.now)),
            None => None,
        },
    );
    if rested.applied == Some(key_of(c)) && !again {
        (rested, None)
    } else {
        (
            SwitchModel {
                applied: Some(key_of(c)),
                adobe_attempts: if adobe_auto && !c.editable {
                    rested.adobe_attempts.insert(c.process_id, o.now)
                } else {
                    rested.adobe_attempts
                },
                entry_attempt: if target == LanguageTarget::Chinese && c.editable {
                    Some(o.now)
                } else {
                    rested.entry_attempt
                },
                ..rested
            },
            Some(request(c, target)),
        )
    }
}

/// What becomes of a context that has come to rest.
pub open spec fn settled(m: SwitchModel, c: ContextModel, o: Surroundings) -> (
    SwitchModel,
    Option<SwitchRequest>,
) {
    let rule = rule_in_force(o.process_name@, processes::opt_text(o.app_rule));
    let adobe = adobe_auto(rule, o.process_name@);
    let known = SwitchModel {
        adobe_editable: if adobe && c.editable {
            m.adobe_editable.insert(c.process_id)
        } else {
            m.adobe_editable
        },
        ..m
    };
    let target = language_for(rule, c.password, c.editable);
    if adobe && !c.editable && !m.adobe_editable.contains(c.process_id) {
        (m, None)
    } else if target is None {
        (known, None)
    } else if rule == "auto"@ && c.input_double_click && c.editable && !c.password
        && toggles_on_double_click(o.process_name@) {
        (
            SwitchModel {
                hold: Some((c.process_id, c.focused_hwnd, o.now)),
                ..applied(known, c)
            },
            Some(request(c, toggled(o.chinese_mode))),
        )
    } else if rule == "auto"@ && c.editable && !c.password && held(known, c, o.now) {
        (applied(known, c), None)
    } else {
        automatic(known, c, o, adobe, target->0)
    }
}

/// The switcher after a check, and the switch that is to be made.
pub open spec fn observed(m: SwitchModel, c: ContextModel, o: Surroundings) -> (
    SwitchModel,
    Option<SwitchRequest>,
) {
    if !o.enabled {
        (switched_off(m), None)
    } else {
        let on = switched_on(m);
        if still_settling(on, c, o) {
            (focused(on, c, o.now), None)
        } else {
            settled(focused(on, c, o.now), c, o)
        }
    }
}

impl AutoSwitcher {
    pub fn new(enabled: bool, now: Instant) -> (switcher: AutoSwitcher)
        ensures
            switcher@ == initial_switcher(enabled, now),
    {
        AutoSwitcher {
            candidate: None,
            candidate_since: now,
            applied_context: None,
            enabled_last: enabled,
            adobe_editable_processes: HashSet::new(),
            adobe_english_attempts: HashMap::new(),
            editable_entry: None,
            editable_entry_last_attempt: None,
            manual_double_click_hold: None,
        }
    }

    /// Takes over the context of a check.
    fn focus(&mut self, context: FocusContext, now: Instant) -> (changed: bool)
        ensures
            changed == context_changed(old(self)@.candidate, context@),
            final(self)@ == focused(old(self)@, context@, now),
    {
        if !context.editable {
            self.manual_double_click_hold = None;
        }
        let (changed, next_key) = refresh_candidate(&mut self.candidate, context);
        if changed {
            self.editable_entry = if next_key.editable && !next_key.password {
                Some((next_key, now))
            } else {
                None
            };
            self.editable_entry_last_attempt = None;
            self.candidate_since = now;
        }
        changed
    }

    /// Asks for the language `target` once in each context, and again while it is
    /// due.
    fn switch_automatically(
        &mut self,
        context: &FocusContext,
        o: &Surroundings,
        adobe_auto: bool,
        target: LanguageTarget,
    ) -> (r: Option<SwitchRequest>)
        ensures
            (final(self)@, r) == automatic(old(self)@, context@, *o, adobe_auto, target),
    {
        let key = SwitchContextKey::from(context);
        if !self.holds(context, o.now) {
            self.manual_double_click_hold = None;
        }
        let is_entry = match &self.editable_entry {
            Some((entry_key, _)) => *entry_key == key,
            None => false,
        };
        if o.chinese_mode && is_entry {
            self.editable_entry = None;
            self.editable_entry_last_attempt = None;
        }
        let since_english = match self.adobe_english_attempts.get(&context.process_id) {
            Some(at) => Some(o.now.duration_since(*at)),
            None => None,
        };
        let since_entry = match &self.editable_entry {
            Some((entry_key, at)) => if *entry_key == key {
                Some(o.now.duration_since(*at))
            } else {
                None
            },
            None => None,
        };
        let since_attempt = match self.editable_entry_last_attempt {
            Some(at) => Some(o.now.duration_since(at)),
            None => None,
        };
        let again = should_enforce_adobe_english(
            adobe_auto,
            context.editable,
            o.chinese_mode,
            since_english,
        ) || should_retry_editable_chinese(target, o.chinese_mode, since_entry, since_attempt);
        let done = match &self.applied_context {
            Some(applied_key) => *applied_key == key,
            None => false,
        };
        if done && !again {
            return None;
        }
        self.applied_context = Some(key);
        if adobe_auto && !context.editable {
            let _ = self.adobe_english_attempts.insert(context.process_id, o.now);
        }
        if target == LanguageTarget::Chinese && context.editable {
            self.editable_entry_last_attempt = Some(o.now);
        }
        Some(
            SwitchRequest {
                focused_hwnd: context.focused_hwnd,
                foreground_hwnd: context.foreground_hwnd,
                target,
            },
        )
    }

    /// The language was chosen by a double click a moment ago.
    fn holds(&self, context: &FocusContext, now: Instant) -> (yes: bool)
        ensures
            yes == held(self@, context@, now),
    {
        match self.manual_double_click_hold {
            Some((process_id, focused_hwnd, at)) => process_id == context.process_id
                && focused_hwnd == context.focused_hwnd && now.duration_since(at).at_most(
                DOUBLE_CLICK_HOLD_MS,
            ),
            None => false,
        }
    }

    /// Follows a check of the focus, and tells what to switch.
    pub fn observe(&mut self, context: FocusContext, o: &Surroundings) -> (r: Option<SwitchRequest>)
        ensures
            (final(self)@, r) == observed(old(self)@, context@, *o),
    {
        if !o.enabled {
            self.enabled_last = false;
            self.editable_entry = None;
            self.editable_entry_last_attempt = None;
            self.manual_double_click_hold = None;
            return None;
        }
        if !self.enabled_last {
            self.candidate = None;
            self.applied_context = None;
            self.editable_entry = None;
            self.editable_entry_last_attempt = None;
            self.manual_double_click_hold = None;
            self.enabled_last = true;
        }
        let context_now = context.clone();
        let since = self.candidate_since;
        let changed = self.focus(context, o.now);
        let context = context_now;
        if !context.editable && (changed || !o.now.duration_since(since).at_least(o.settle_ms)) {
            return None;
        }
        let rule = rule_for(o.process_name, o.app_rule);
        let auto = text::same_text(rule, "auto");
        let adobe = auto && is_adobe_design_process(o.process_name);
        if adobe {
            if context.editable {
                let _ = self.adobe_editable_processes.insert(context.process_id);
            } else if !self.adobe_editable_processes.contains(&context.process_id) {
                return None;
            }
        }
        let target = match target_for(rule, context.password, context.editable) {
            Some(target) => target,
            None => {
                return None;
            },
        };
        if auto && context.input_double_click && context.editable && !context.password
            && supports_double_click_toggle(o.process_name) {
            self.applied_context = Some(SwitchContextKey::from(&context));
            self.editable_entry = None;
            self.editable_entry_last_attempt = None;
            self.manual_double_click_hold = Some(
                (context.process_id, context.focused_hwnd, o.now),
            );
            return Some(
                SwitchRequest {
                    focused_hwnd: context.focused_hwnd,
                    foreground_hwnd: context.foreground_hwnd,
                    target: double_click_target(o.chinese_mode),
                },
            );
        }
        if auto && context.editable && !context.password && self.holds(&context, o.now) {
            self.applied_context = Some(SwitchContextKey::from(&context));
            self.editable_entry = None;
            self.editable_entry_last_attempt = None;
            return None;
        }
        self.switch_automatically(&context, o, adobe, target)
    }
}

} // verus!
