//! What holds of switching with the focus.

use vstd::prelude::*;

use crate::auto_switch;
use crate::auto_switch::{KeyModel, LanguageTarget, Surroundings, SwitchModel, SwitchRequest};
use crate::caret_detector::ContextModel;
use crate::clock;
use crate::clock::{Duration, Instant};
use crate::processes;

verus! {

/// The switcher after the checks `checks`, in order.
pub open spec fn after_checks(
    m: SwitchModel,
    checks: Seq<(ContextModel, Surroundings)>,
) -> SwitchModel
    decreases checks.len(),
{
    if checks.len() == 0 {
        m
    } else {
        let before = after_checks(m, checks.drop_last());
        let (c, o) = checks.last();
        auto_switch::observed(before, c, o).0
    }
}

/// What the last of the checks `checks` asks to switch.
pub open spec fn last_request(
    m: SwitchModel,
    checks: Seq<(ContextModel, Surroundings)>,
) -> Option<SwitchRequest>
    recommends
        checks.len() > 0,
{
    let (c, o) = checks.last();
    auto_switch::observed(after_checks(m, checks.drop_last()), c, o).1
}

/// Nothing is switched while switching is turned off.
pub proof fn nothing_is_switched_while_off(m: SwitchModel, c: ContextModel, o: Surroundings)
    requires
        !o.enabled,
    ensures
        auto_switch::observed(m, c, o).1 is None,
{
}

/// Once it is turned on again, switching starts over: the context in which it was
/// turned off is switched again like any other.
pub proof fn switching_starts_over(
    m: SwitchModel,
    c: ContextModel,
    o: Surroundings,
    next: ContextModel,
    later: Surroundings,
)
    requires
        !o.enabled,
        later.enabled,
    ensures
        ({
            let off = auto_switch::observed(m, c, o).0;
            let fresh = SwitchModel {
                adobe_editable: m.adobe_editable,
                adobe_attempts: m.adobe_attempts,
                ..auto_switch::initial_switcher(true, m.since)
            };
            auto_switch::observed(off, next, later) == auto_switch::observed(fresh, next, later)
        }),
{
}

/// Applications that only show the state are never switched, whatever rule is
/// configured for them, and neither are those whose rule is `ignore`.
pub proof fn ignored_applications_are_never_switched(
    m: SwitchModel,
    c: ContextModel,
    o: Surroundings,
)
    requires
        processes::shows_state_only(o.process_name@, processes::opt_text(o.app_rule)),
    ensures
        auto_switch::observed(m, c, o).1 is None,
{
    reveal_strlit("ignore");
    reveal_strlit("auto");
    assert("ignore"@.len() != "auto"@.len());
}

/// A fixed language is the only one that is asked for.
pub proof fn fixed_rules_decide(m: SwitchModel, c: ContextModel, o: Surroundings)
    ensures
        auto_switch::observed(m, c, o).1 matches Some(r) ==> {
            &&& auto_switch::rule_in_force(o.process_name@, processes::opt_text(o.app_rule))
                == "chinese"@ ==> r.target is Chinese
            &&& auto_switch::rule_in_force(o.process_name@, processes::opt_text(o.app_rule))
                == "english"@ ==> r.target is English
        },
{
    reveal_strlit("chinese");
    reveal_strlit("english");
    reveal_strlit("auto");
    reveal_strlit("ignore");
    assert("chinese"@[0] != "english"@[0]);
    assert("chinese"@.len() != "auto"@.len());
    assert("english"@.len() != "auto"@.len());
    assert("english"@.len() != "ignore"@.len());
    assert("chinese"@.len() != "ignore"@.len());
}

/// Passwords are typed in English, unless the rule is fixed to Chinese.
pub proof fn passwords_are_typed_in_english(m: SwitchModel, c: ContextModel, o: Surroundings)
    requires
        c.password,
        auto_switch::rule_in_force(o.process_name@, processes::opt_text(o.app_rule)) != "chinese"@,
    ensures
        auto_switch::observed(m, c, o).1 matches Some(r) ==> r.target is English,
{
}

/// A password box that was not switched yet is brought to English at once, whatever
/// happened before: a double click neither toggles it nor keeps it as it is.
pub proof fn a_password_box_gets_english(m: SwitchModel, c: ContextModel, o: Surroundings)
    requires
        o.enabled,
        c.editable,
        c.password,
        !m.enabled || m.applied != Some(auto_switch::key_of(c)),
        auto_switch::rule_in_force(o.process_name@, processes::opt_text(o.app_rule)) == "auto"@,
    ensures
        auto_switch::observed(m, c, o).1 == Some(
            auto_switch::request(c, LanguageTarget::English),
        ),
{
    lemma_rules_differ();
}

/// A switch is always asked of the windows in focus.
pub proof fn the_focus_is_switched(m: SwitchModel, c: ContextModel, o: Surroundings)
    ensures
        auto_switch::observed(m, c, o).1 matches Some(r) ==> r.focused_hwnd == c.focused_hwnd
            && r.foreground_hwnd == c.foreground_hwnd,
{
}

/// An input is brought to Chinese at once when the focus enters it, unless it is in
/// Chinese already or a double click chose the language.
pub proof fn entering_an_input_asks_for_chinese(m: SwitchModel, c: ContextModel, o: Surroundings)
    requires
        o.enabled,
        c.editable,
        !c.password,
        !(c.input_double_click && auto_switch::toggles_on_double_click(o.process_name@)),
        auto_switch::context_changed(m.candidate, c),
        !auto_switch::held(m, c, o.now),
        auto_switch::rule_in_force(o.process_name@, processes::opt_text(o.app_rule)) == "auto"@,
    ensures
        auto_switch::observed(m, c, o).1 == Some(
            auto_switch::request(c, LanguageTarget::Chinese),
        ) || (o.chinese_mode && auto_switch::observed(m, c, o).1 is None),
{
    lemma_rules_differ();
}

/// A context that was not switched yet gets the language that its rule asks for,
/// as soon as it has come to rest. An input is at rest at once.
pub proof fn every_context_gets_its_language(
    m: SwitchModel,
    c: ContextModel,
    o: Surroundings,
    target: LanguageTarget,
)
    requires
        o.enabled,
        !auto_switch::still_settling(auto_switch::switched_on(m), c, o),
        !m.enabled || m.applied != Some(auto_switch::key_of(c)),
        ({
            let rule = auto_switch::rule_in_force(
                o.process_name@,
                processes::opt_text(o.app_rule),
            );
            &&& auto_switch::language_for(rule, c.password, c.editable) == Some(target)
            &&& rule == "auto"@ && c.editable && !c.password ==> !auto_switch::held(m, c, o.now)
            &&& rule == "auto"@ && c.editable && !c.password
                && auto_switch::toggles_on_double_click(o.process_name@) ==> !c.input_double_click
            &&& auto_switch::adobe_auto(rule, o.process_name@) && !c.editable
                ==> m.adobe_editable.contains(c.process_id)
        }),
    ensures
        auto_switch::observed(m, c, o).1 == Some(auto_switch::request(c, target)),
{
}

/// The names of the rules are different texts.
proof fn lemma_rules_differ()
    ensures
        "auto"@ != "ignore"@,
        "auto"@ != "chinese"@,
        "auto"@ != "english"@,
{
    reveal_strlit("chinese");
    reveal_strlit("english");
    reveal_strlit("auto");
    reveal_strlit("ignore");
    assert("chinese"@.len() != "auto"@.len());
    assert("english"@.len() != "auto"@.len());
    assert("ignore"@.len() != "auto"@.len());
}

/// Outside inputs nothing is switched before the focus has rested in the same
/// context for the configured time.
pub proof fn outside_inputs_the_focus_rests_first(
    m: SwitchModel,
    c: ContextModel,
    o: Surroundings,
)
    requires
        !c.editable,
        auto_switch::observed(m, c, o).1 is Some,
    ensures
        m.enabled,
        !auto_switch::context_changed(m.candidate, c),
        clock::elapsed(m.since, o.now) >= clock::millis(o.settle_ms as int),
{
}

/// Leaving the inputs brings English once the focus has rested.
pub proof fn leaving_the_inputs_asks_for_english(m: SwitchModel, c: ContextModel, o: Surroundings)
    requires
        o.enabled,
        m.enabled,
        !c.editable,
        !auto_switch::context_changed(m.candidate, c),
        clock::elapsed(m.since, o.now) >= clock::millis(o.settle_ms as int),
        m.applied != Some(auto_switch::key_of(c)),
        auto_switch::rule_in_force(o.process_name@, processes::opt_text(o.app_rule)) == "auto"@,
        processes::listed(o.process_name@, processes::DESIGN_TEXT_SHORTCUT_APPS@)
            ==> m.adobe_editable.contains(c.process_id),
    ensures
        auto_switch::observed(m, c, o).1 == Some(
            auto_switch::request(c, LanguageTarget::English),
        ),
{
    lemma_rules_differ();
}

/// A double click in an input toggles the language that the input is in.
pub proof fn a_double_click_toggles(m: SwitchModel, c: ContextModel, o: Surroundings)
    requires
        o.enabled,
        c.editable,
        !c.password,
        c.input_double_click,
        auto_switch::toggles_on_double_click(o.process_name@),
        auto_switch::rule_in_force(o.process_name@, processes::opt_text(o.app_rule)) == "auto"@,
    ensures
        auto_switch::observed(m, c, o).1 == Some(
            auto_switch::request(c, auto_switch::toggled(o.chinese_mode)),
        ),
{
    lemma_rules_differ();
}

/// The check finds the focus in an input of the process and window of `c`, shortly
/// after `at` and without another double click.
pub open spec fn follows_shortly(
    c: ContextModel,
    at: Instant,
    check: (ContextModel, Surroundings),
) -> bool {
    let (next, o) = check;
    &&& o.enabled
    &&& next.editable
    &&& !next.input_double_click
    &&& next.process_id == c.process_id
    &&& next.focused_hwnd == c.focused_hwnd
    &&& clock::elapsed(at, o.now) <= clock::millis(auto_switch::DOUBLE_CLICK_HOLD_MS as int)
}

proof fn lemma_hold_is_kept(
    m: SwitchModel,
    c: ContextModel,
    at: Instant,
    checks: Seq<(ContextModel, Surroundings)>,
)
    requires
        m.enabled,
        m.hold == Some((c.process_id, c.focused_hwnd, at)),
        forall|i: int| 0 <= i < checks.len() ==> follows_shortly(c, at, #[trigger] checks[i]),
    ensures
        after_checks(m, checks).enabled,
        after_checks(m, checks).hold == Some((c.process_id, c.focused_hwnd, at)),
    decreases checks.len(),
{
    if checks.len() > 0 {
        let before = checks.drop_last();
        assert forall|i: int| 0 <= i < before.len() implies follows_shortly(
            c,
            at,
            #[trigger] before[i],
        ) by {
            assert(before[i] == checks[i]);
        }
        lemma_hold_is_kept(m, c, at, before);
        assert(follows_shortly(c, at, checks[checks.len() - 1]));
    }
}

/// The language that a double click chose is not taken back by what follows shortly
/// in the same window, even where it reaches other inputs, however many checks there
/// are. A password box is none of these inputs.
pub proof fn a_double_click_is_not_taken_back(
    m: SwitchModel,
    c: ContextModel,
    o: Surroundings,
    checks: Seq<(ContextModel, Surroundings)>,
)
    requires
        o.enabled,
        c.editable,
        !c.password,
        c.input_double_click,
        auto_switch::toggles_on_double_click(o.process_name@),
        auto_switch::rule_in_force(o.process_name@, processes::opt_text(o.app_rule)) == "auto"@,
        checks.len() > 0,
        forall|i: int| 0 <= i < checks.len() ==> follows_shortly(c, o.now, #[trigger] checks[i]),
        !checks.last().0.password,
        auto_switch::rule_in_force(
            checks.last().1.process_name@,
            processes::opt_text(checks.last().1.app_rule),
        ) == "auto"@,
    ensures
        last_request(auto_switch::observed(m, c, o).0, checks) is None,
{
    lemma_rules_differ();
    let before = checks.drop_last();
    assert forall|i: int| 0 <= i < before.len() implies follows_shortly(
        c,
        o.now,
        #[trigger] before[i],
    ) by {
        assert(before[i] == checks[i]);
    }
    lemma_hold_is_kept(auto_switch::observed(m, c, o).0, c, o.now, before);
    assert(follows_shortly(c, o.now, checks[checks.len() - 1]));
}

/// What was switched for the context `c` is settled: no switch is due any more.
pub open spec fn choice_is_left(m: SwitchModel, c: ContextModel, now: Instant) -> bool {
    &&& m.enabled
    &&& m.applied == Some(auto_switch::key_of(c))
    &&& !auto_switch::context_changed(m.candidate, c)
    &&& m.entry matches Some((_, at)) ==> clock::elapsed(at, now) > clock::millis(
        auto_switch::EDITABLE_ENTRY_RETRY_WINDOW_MS as int,
    )
}

/// The choice is left to the user as soon as a context was switched and the time
/// for repetitions is over.
pub proof fn a_switched_context_is_left(
    m: SwitchModel,
    c: ContextModel,
    o: Surroundings,
    now: Instant,
)
    requires
        auto_switch::observed(m, c, o).1 is Some,
        m.entry matches Some((_, at)) ==> at.nanos <= o.now.nanos,
        clock::elapsed(o.now, now) > clock::millis(
            auto_switch::EDITABLE_ENTRY_RETRY_WINDOW_MS as int,
        ),
    ensures
        choice_is_left(auto_switch::observed(m, c, o).0, c, now),
{
}

/// An input that was entered and is not known to be in Chinese yet is the one that
/// has the focus.
pub open spec fn entry_is_current(m: SwitchModel) -> bool {
    m.entry matches Some((key, _)) ==> {
        &&& m.candidate matches Some(current) && auto_switch::key_of(current) == key
        &&& key.editable
        &&& !key.password
    }
}

/// After any checks only the input that has the focus is waited for.
pub proof fn only_the_focus_is_waited_for(
    enabled: bool,
    start: Instant,
    checks: Seq<(ContextModel, Surroundings)>,
)
    ensures
        entry_is_current(after_checks(auto_switch::initial_switcher(enabled, start), checks)),
    decreases checks.len(),
{
    if checks.len() > 0 {
        only_the_focus_is_waited_for(enabled, start, checks.drop_last());
    }
}

/// The choice is left to the user at once where a check finds Chinese mode in a
/// context that was switched, now or before: nothing is repeated any more.
pub proof fn a_context_in_chinese_is_left(
    m: SwitchModel,
    c: ContextModel,
    o: Surroundings,
    now: Instant,
)
    requires
        entry_is_current(m),
        o.enabled,
        o.chinese_mode,
        auto_switch::rule_in_force(o.process_name@, processes::opt_text(o.app_rule)) != "ignore"@,
        auto_switch::observed(m, c, o).1 is Some || {
            &&& m.enabled
            &&& m.applied == Some(auto_switch::key_of(c))
            &&& !auto_switch::context_changed(m.candidate, c)
        },
    ensures
        choice_is_left(auto_switch::observed(m, c, o).0, c, now),
{
}

/// The check `later` finds the focus where the check of `c` at `now` found it,
/// without a double click, and not in a design application that left its text.
pub open spec fn stays_in(
    c: ContextModel,
    now: Instant,
    later: (ContextModel, Surroundings),
) -> bool {
    let (next, o) = later;
    &&& o.enabled
    &&& now.nanos <= o.now.nanos
    &&& auto_switch::key_of(next) == auto_switch::key_of(c)
    &&& !next.input_double_click
    &&& next.editable || !o.chinese_mode || !auto_switch::adobe_auto(
        auto_switch::rule_in_force(o.process_name@, processes::opt_text(o.app_rule)),
        o.process_name@,
    )
}

/// What the user chooses by hand stays: once a context was switched and the time
/// for repetitions is over, no further check in it asks for a switch, however many
/// there are and whatever mode the input method is in.
pub proof fn the_choice_of_the_user_stays(
    m: SwitchModel,
    c: ContextModel,
    now: Instant,
    checks: Seq<(ContextModel, Surroundings)>,
)
    requires
        choice_is_left(m, c, now),
        checks.len() > 0,
        forall|i: int| 0 <= i < checks.len() ==> stays_in(c, now, #[trigger] checks[i]),
    ensures
        last_request(m, checks) is None,
        choice_is_left(after_checks(m, checks), c, now),
    decreases checks.len(),
{
    let before = checks.drop_last();
    if before.len() > 0 {
        assert forall|i: int| 0 <= i < before.len() implies stays_in(
            c,
            now,
            #[trigger] before[i],
        ) by {
            assert(before[i] == checks[i]);
        }
        the_choice_of_the_user_stays(m, c, now, before);
    }
    assert(stays_in(c, now, checks[checks.len() - 1]));
}

/// Requests for Chinese in one input keep their distance.
pub proof fn repetitions_keep_their_distance(
    m: SwitchModel,
    c: ContextModel,
    o: Surroundings,
    next: ContextModel,
    later: Surroundings,
)
    requires
        auto_switch::observed(m, c, o).1 matches Some(r) && r.target is Chinese,
        c.editable,
        next.editable,
        !next.input_double_click,
        auto_switch::key_of(next) == auto_switch::key_of(c),
        clock::elapsed(o.now, later.now) < clock::millis(
            auto_switch::EDITABLE_ENTRY_RETRY_INTERVAL_MS as int,
        ),
    ensures
        auto_switch::observed(auto_switch::observed(m, c, o).0, next, later).1 is None,
{
}

/// Requests to bring a design application back to English keep their distance.
pub proof fn design_requests_keep_their_distance(
    m: SwitchModel,
    c: ContextModel,
    o: Surroundings,
    next: ContextModel,
    later: Surroundings,
)
    requires
        auto_switch::observed(m, c, o).1 is Some,
        !c.editable,
        auto_switch::adobe_auto(
            auto_switch::rule_in_force(o.process_name@, processes::opt_text(o.app_rule)),
            o.process_name@,
        ),
        auto_switch::key_of(next) == auto_switch::key_of(c),
        next.process_id == c.process_id,
        later.process_name == o.process_name,
        later.app_rule == o.app_rule,
        clock::elapsed(o.now, later.now) < clock::millis(
            auto_switch::ADOBE_ENGLISH_RETRY_MS as int,
        ),
    ensures
        auto_switch::observed(auto_switch::observed(m, c, o).0, next, later).1 is None,
{
    lemma_rules_differ();
}

/// The check finds text edited in the design application of the process
/// `process_id`, under the automatic rule.
pub open spec fn edits_design_text(
    process_id: u32,
    check: (ContextModel, Surroundings),
) -> bool {
    let (c, o) = check;
    &&& o.enabled
    &&& c.process_id == process_id
    &&& c.editable
    &&& auto_switch::adobe_auto(
        auto_switch::rule_in_force(o.process_name@, processes::opt_text(o.app_rule)),
        o.process_name@,
    )
}

/// A design application is not switched before text was edited in it while
/// switching was turned on.
pub proof fn design_applications_start_unswitched(
    m: SwitchModel,
    process_id: u32,
    checks: Seq<(ContextModel, Surroundings)>,
)
    requires
        !m.adobe_editable.contains(process_id),
        checks.len() > 0,
        forall|i: int|
            0 <= i < checks.len() ==> !edits_design_text(process_id, #[trigger] checks[i]),
    ensures
        !after_checks(m, checks).adobe_editable.contains(process_id),
        ({
            let (c, o) = checks.last();
            c.process_id == process_id && auto_switch::adobe_auto(
                auto_switch::rule_in_force(o.process_name@, processes::opt_text(o.app_rule)),
                o.process_name@,
            ) ==> last_request(m, checks) is None
        }),
    decreases checks.len(),
{
    let before = checks.drop_last();
    if before.len() > 0 {
        assert forall|i: int| 0 <= i < before.len() implies !edits_design_text(
            process_id,
            #[trigger] before[i],
        ) by {
            assert(before[i] == checks[i]);
        }
        design_applications_start_unswitched(m, process_id, before);
    }
    assert(!edits_design_text(process_id, checks[checks.len() - 1]));
}

/// At least `ms` milliseconds lie between `from` and `now`.
pub open spec fn passed(from: Instant, now: Instant, ms: int) -> bool {
    now.nanos - from.nanos >= ms * 1_000_000 || ms <= 0
}

/// No more than `ms` milliseconds lie between `from` and `now`.
pub open spec fn within(from: Instant, now: Instant, ms: int) -> bool {
    now.nanos - from.nanos <= ms * 1_000_000
}

/// The context `c` as the switcher tells it from others.
pub open spec fn key(c: ContextModel) -> KeyModel {
    KeyModel { identity: c.identity, editable: c.editable, password: c.password }
}

/// The last check found the focus in the context `c` too.
pub open spec fn stayed(m: SwitchModel, c: ContextModel) -> bool {
    &&& m.enabled
    &&& m.candidate is Some
    &&& m.candidate->0.identity == c.identity
    &&& m.candidate->0.editable == c.editable
    &&& m.candidate->0.password == c.password
}

/// The context `c` has come to rest: an input is at rest at once, and elsewhere the
/// focus has stayed for the configured time.
pub open spec fn at_rest(m: SwitchModel, c: ContextModel, o: Surroundings) -> bool {
    c.editable || (stayed(m, c) && passed(m.since, o.now, o.settle_ms as int))
}

/// The context `c` is not the one for which the last switch was made.
pub open spec fn not_switched_yet(m: SwitchModel, c: ContextModel) -> bool {
    !m.enabled || m.applied != Some(key(c))
}

/// The rule of the application is `rule`: the configuration says so, or it says
/// nothing and the rule is automatic. Some applications have no rule.
pub open spec fn has_rule(o: Surroundings, rule: Seq<char>) -> bool {
    &&& !processes::listed(o.process_name@, processes::INDICATOR_ONLY_APPS@)
    &&& o.app_rule matches Some(configured) ==> configured@ == rule
    &&& o.app_rule is None ==> rule == "auto"@
}

/// The application is a design application.
pub open spec fn is_design(o: Surroundings) -> bool {
    processes::listed(o.process_name@, processes::DESIGN_TEXT_SHORTCUT_APPS@)
}

/// A switch of the windows of `c` to `target`.
pub open spec fn switch_to(c: ContextModel, target: LanguageTarget) -> SwitchRequest {
    SwitchRequest {
        focused_hwnd: c.focused_hwnd,
        foreground_hwnd: c.foreground_hwnd,
        target,
    }
}

/// The names of all rules are different texts.
proof fn lemma_all_rules_differ()
    ensures
        "auto"@ != "ignore"@,
        "auto"@ != "chinese"@,
        "auto"@ != "english"@,
        "ignore"@ != "chinese"@,
        "ignore"@ != "english"@,
        "chinese"@ != "english"@,
{
    lemma_rules_differ();
    reveal_strlit("chinese");
    reveal_strlit("english");
    reveal_strlit("ignore");
    assert("chinese"@[0] != "english"@[0]);
    assert("ignore"@.len() == 6 && "chinese"@.len() == 7 && "english"@.len() == 7);
}

/// Whatever the context is, the rule `english` asks for English and the rule `chinese`
/// for Chinese. No rule but `ignore` asks for nothing. Every other rule goes by the
/// context: Chinese where text is taken that is no password, and English elsewhere.
pub proof fn rules_ask_for_languages(rule: Seq<char>, password: bool, editable: bool)
    ensures
        auto_switch::language_for(rule, password, editable) is None <==> rule == "ignore"@,
        auto_switch::language_for("english"@, password, editable) == Some(LanguageTarget::English),
        auto_switch::language_for("chinese"@, password, editable) == Some(LanguageTarget::Chinese),
        rule != "ignore"@ && rule != "english"@ && rule != "chinese"@
            ==> auto_switch::language_for(rule, password, editable) == Some(
            if editable && !password {
                LanguageTarget::Chinese
            } else {
                LanguageTarget::English
            },
        ),
{
    lemma_all_rules_differ();
}

/// The configured rule is in force, and where there is none the rule is automatic.
/// Applications that only show the state are left alone whatever is configured.
pub proof fn the_configured_rule_is_in_force(name: Seq<char>, configured: Option<Seq<char>>)
    ensures
        ({
            let rule = auto_switch::rule_in_force(name, configured);
            let left_alone = processes::listed(name, processes::INDICATOR_ONLY_APPS@);
            &&& left_alone ==> rule == "ignore"@
            &&& !left_alone && configured is None ==> rule == "auto"@
            &&& !left_alone && configured is Some ==> rule == configured->0
        }),
{
}

/// Under a fixed rule every context that has come to rest and was not switched yet
/// gets a request for that language, inside and outside inputs, whatever else happened.
pub proof fn fixed_rules_reach_every_context(m: SwitchModel, c: ContextModel, o: Surroundings)
    requires
        o.enabled,
        at_rest(m, c, o),
        not_switched_yet(m, c),
    ensures
        has_rule(o, "english"@) ==> auto_switch::observed(m, c, o).1 == Some(
            switch_to(c, LanguageTarget::English),
        ),
        has_rule(o, "chinese"@) ==> auto_switch::observed(m, c, o).1 == Some(
            switch_to(c, LanguageTarget::Chinese),
        ),
{
    lemma_all_rules_differ();
}

/// Under a fixed rule nothing is asked for but its language, and English once in each
/// context that has come to rest.
pub proof fn fixed_english_is_asked_for_once(m: SwitchModel, c: ContextModel, o: Surroundings)
    requires
        has_rule(o, "english"@),
    ensures
        auto_switch::observed(m, c, o).1 == (if o.enabled && at_rest(m, c, o) && not_switched_yet(
            m,
            c,
        ) {
            Some(switch_to(c, LanguageTarget::English))
        } else {
            None
        }),
{
    lemma_all_rules_differ();
}

/// Outside inputs the automatic rule asks for English exactly once in each context
/// that has come to rest.
pub proof fn english_is_asked_for_once_outside_inputs(
    m: SwitchModel,
    c: ContextModel,
    o: Surroundings,
)
    requires
        has_rule(o, "auto"@),
        !is_design(o),
        !c.editable,
    ensures
        auto_switch::observed(m, c, o).1 == (if o.enabled && at_rest(m, c, o) && not_switched_yet(
            m,
            c,
        ) {
            Some(switch_to(c, LanguageTarget::English))
        } else {
            None
        }),
{
    lemma_all_rules_differ();
}

/// Outside its text a design application is asked for English exactly where text was
/// edited in it before and the focus is at rest: once in each context, and again while
/// it is in Chinese, a hundred and twenty milliseconds apart.
pub proof fn design_applications_are_brought_back(
    m: SwitchModel,
    c: ContextModel,
    o: Surroundings,
)
    requires
        has_rule(o, "auto"@),
        is_design(o),
        !c.editable,
    ensures
        auto_switch::observed(m, c, o).1 == (if o.enabled && at_rest(m, c, o)
            && m.adobe_editable.contains(c.process_id) && (not_switched_yet(m, c) || (
        o.chinese_mode && (m.adobe_attempts.contains_key(c.process_id) ==> passed(
            m.adobe_attempts[c.process_id],
            o.now,
            120,
        )))) {
            Some(switch_to(c, LanguageTarget::English))
        } else {
            None
        }),
{
    lemma_all_rules_differ();
}

/// A double click in this window chose the language at most a second and a half ago.
pub open spec fn double_click_holds(m: SwitchModel, c: ContextModel, o: Surroundings) -> bool {
    &&& m.enabled
    &&& m.hold is Some
    &&& (m.hold->0).0 == c.process_id
    &&& (m.hold->0).1 == c.focused_hwnd
    &&& within((m.hold->0).2, o.now, 1500)
}

/// The input was entered at most two hundred and sixty milliseconds ago, and Chinese
/// was not asked for in it in the last seventy.
pub open spec fn may_ask_again(m: SwitchModel, c: ContextModel, o: Surroundings) -> bool {
    !stayed(m, c) || {
        &&& m.entry is Some
        &&& (m.entry->0).0 == key(c)
        &&& within((m.entry->0).1, o.now, 260)
        &&& m.entry_attempt matches Some(at) ==> passed(at, o.now, 70)
    }
}

/// In an input the automatic rule asks for Chinese exactly where the input was not
/// switched yet, or shortly after it was entered while it is not in Chinese. A double
/// click that holds keeps it from asking.
pub proof fn inputs_are_asked_for_chinese(m: SwitchModel, c: ContextModel, o: Surroundings)
    requires
        has_rule(o, "auto"@),
        c.editable,
        !c.password,
        !c.input_double_click,
    ensures
        auto_switch::observed(m, c, o).1 == (if o.enabled && !double_click_holds(m, c, o) && (
        not_switched_yet(m, c) || (!o.chinese_mode && may_ask_again(m, c, o))) {
            Some(switch_to(c, LanguageTarget::Chinese))
        } else {
            None
        }),
{
    lemma_all_rules_differ();
}

/// A password box is asked for English exactly once under the automatic rule.
pub proof fn password_boxes_are_asked_once(m: SwitchModel, c: ContextModel, o: Surroundings)
    requires
        has_rule(o, "auto"@),
        c.editable,
        c.password,
    ensures
        auto_switch::observed(m, c, o).1 == (if o.enabled && not_switched_yet(m, c) {
            Some(switch_to(c, LanguageTarget::English))
        } else {
            None
        }),
{
    lemma_all_rules_differ();
}

/// Under a rule fixed to Chinese, every context is asked for it once, and an input
/// again shortly after it was entered while it is not in Chinese.
pub proof fn fixed_chinese_is_asked_for(m: SwitchModel, c: ContextModel, o: Surroundings)
    requires
        has_rule(o, "chinese"@),
        entry_is_current(m),
    ensures
        auto_switch::observed(m, c, o).1 == (if o.enabled && at_rest(m, c, o) && (not_switched_yet(
            m,
            c,
        ) || (c.editable && !c.password && !o.chinese_mode && may_ask_again(m, c, o))) {
            Some(switch_to(c, LanguageTarget::Chinese))
        } else {
            None
        }),
{
    lemma_all_rules_differ();
}

/// A double click in an input brings the other language than the one that the input
/// method is in, at once and every time, unless the application gives double clicks a
/// meaning of its own.
pub proof fn a_double_click_brings_the_other_language(
    m: SwitchModel,
    c: ContextModel,
    o: Surroundings,
)
    requires
        o.enabled,
        has_rule(o, "auto"@),
        c.editable,
        !c.password,
        c.input_double_click,
        !processes::listed(o.process_name@, processes::DESIGN_TEXT_SHORTCUT_APPS@),
        !processes::listed(o.process_name@, processes::OFFICE_EDIT_APPS@),
    ensures
        auto_switch::observed(m, c, o).1 == Some(
            switch_to(
                c,
                if o.chinese_mode {
                    LanguageTarget::English
                } else {
                    LanguageTarget::Chinese
                },
            ),
        ),
        auto_switch::observed(m, c, o).0.hold == Some((c.process_id, c.focused_hwnd, o.now)),
{
    lemma_all_rules_differ();
}

/// A double click toggles nothing in a design or office application, in a password
/// box, outside inputs, and under any rule but the automatic one: what is asked for is
/// what would be asked for without it.
pub proof fn other_double_clicks_toggle_nothing(m: SwitchModel, c: ContextModel, o: Surroundings)
    requires
        ({
            ||| processes::listed(o.process_name@, processes::DESIGN_TEXT_SHORTCUT_APPS@)
            ||| processes::listed(o.process_name@, processes::OFFICE_EDIT_APPS@)
            ||| processes::listed(o.process_name@, processes::INDICATOR_ONLY_APPS@)
            ||| c.password
            ||| !c.editable
            ||| o.app_rule matches Some(rule) && rule@ != "auto"@
        }),
    ensures
        auto_switch::observed(m, c, o).1 == auto_switch::observed(
            m,
            ContextModel { input_double_click: false, ..c },
            o,
        ).1,
{
}

/// What a check leaves behind: the context and when the focus came to it, and that a
/// context was switched.
pub proof fn a_check_leaves_its_context(m: SwitchModel, c: ContextModel, o: Surroundings)
    requires
        o.enabled,
    ensures
        ({
            let (after, request) = auto_switch::observed(m, c, o);
            &&& after.enabled
            &&& after.candidate == Some(c)
            &&& after.since == (if stayed(m, c) {
                m.since
            } else {
                o.now
            })
            &&& request is Some ==> after.applied == Some(key(c))
            &&& request is None && after.applied != Some(key(c)) ==> after.applied == (
            if m.enabled {
                m.applied
            } else {
                None
            })
        }),
{
}

/// A choice by double click does not outlast the focus: it is dropped outside inputs,
/// and in an input of another window or after its time.
pub proof fn the_hold_of_a_double_click_ends(m: SwitchModel, c: ContextModel, o: Surroundings)
    requires
        o.enabled,
        has_rule(o, "auto"@),
        !c.input_double_click,
        !c.editable || !double_click_holds(m, c, o),
    ensures
        auto_switch::observed(m, c, o).0.hold is None,
{
    lemma_all_rules_differ();
}

/// While switching is turned off, nothing that waits is kept.
pub proof fn turning_off_forgets_what_waits(m: SwitchModel, c: ContextModel, o: Surroundings)
    requires
        !o.enabled,
    ensures
        ({
            let after = auto_switch::observed(m, c, o).0;
            !after.enabled && after.entry is None && after.entry_attempt is None && after.hold is None
        }),
{
}

/// Text that is edited in a design application is remembered of its process, and that
/// of no other application is.
pub proof fn edited_design_text_is_remembered(m: SwitchModel, c: ContextModel, o: Surroundings)
    ensures
        auto_switch::observed(m, c, o).0.adobe_editable == (if o.enabled && c.editable && has_rule(
            o,
            "auto"@,
        ) && is_design(o) {
            m.adobe_editable.insert(c.process_id)
        } else {
            m.adobe_editable
        }),
{
    lemma_all_rules_differ();
}

/// When a design application was asked for English is remembered.
pub proof fn design_requests_are_remembered(m: SwitchModel, c: ContextModel, o: Surroundings)
    ensures
        auto_switch::observed(m, c, o).0.adobe_attempts == (if auto_switch::observed(
            m,
            c,
            o,
        ).1 is Some && !c.editable && has_rule(o, "auto"@) && is_design(o) {
            m.adobe_attempts.insert(c.process_id, o.now)
        } else {
            m.adobe_attempts
        }),
{
    lemma_all_rules_differ();
}

/// A design application is brought back to English only outside its text and while it
/// is in Chinese, a hundred and twenty milliseconds apart.
pub proof fn bringing_back_keeps_its_distance(
    adobe_auto: bool,
    editable: bool,
    chinese_mode: bool,
    since: Option<Duration>,
)
    ensures
        auto_switch::english_due(adobe_auto, editable, chinese_mode, since) <==> adobe_auto
            && !editable && chinese_mode && (since is None || since->0.nanos >= 120_000_000),
{
}

/// Chinese is asked for again only where it is wanted and not there, within two hundred
/// and sixty milliseconds, and seventy apart.
pub proof fn asking_again_keeps_its_distance(
    target: LanguageTarget,
    chinese_mode: bool,
    entry: Option<Duration>,
    attempt: Option<Duration>,
)
    ensures
        auto_switch::chinese_due(target, chinese_mode, entry, attempt) <==> target is Chinese
            && !chinese_mode && entry is Some && entry->0.nanos <= 260_000_000 && (attempt is None
            || attempt->0.nanos >= 70_000_000),
{
}

/// Two contexts are the same exactly when their identity, whether they take text and
/// whether they hold a password are the same. The events of a check do not matter.
pub proof fn contexts_are_told_apart(p: ContextModel, c: ContextModel)
    ensures
        auto_switch::context_changed(None, c),
        auto_switch::context_changed(Some(p), c) <==> p.identity != c.identity || p.editable
            != c.editable || p.password != c.password,
{
    assert(auto_switch::key_of(p).identity == p.identity);
    assert(auto_switch::key_of(c).identity == c.identity);
}

/// A double click toggles the language in every application but those that only show
/// the state and the design and office applications.
pub proof fn double_clicks_toggle_nearly_everywhere(name: Seq<char>)
    ensures
        auto_switch::toggles_on_double_click(name) <==> !processes::listed(
            name,
            processes::INDICATOR_ONLY_APPS@,
        ) && !processes::listed(name, processes::DESIGN_TEXT_SHORTCUT_APPS@) && !processes::listed(
            name,
            processes::OFFICE_EDIT_APPS@,
        ),
        auto_switch::toggled(true) is English,
        auto_switch::toggled(false) is Chinese,
{
}

/// A switcher that has seen nothing yet asks in the first input that it sees, and outside
/// inputs waits for the focus to rest.
pub proof fn the_first_context_is_switched(
    enabled: bool,
    start: Instant,
    c: ContextModel,
    o: Surroundings,
)
    requires
        o.enabled,
        has_rule(o, "auto"@),
        !c.input_double_click,
    ensures
        c.editable && !c.password ==> auto_switch::observed(
            auto_switch::initial_switcher(enabled, start),
            c,
            o,
        ).1 == Some(switch_to(c, LanguageTarget::Chinese)),
        c.editable && c.password ==> auto_switch::observed(
            auto_switch::initial_switcher(enabled, start),
            c,
            o,
        ).1 == Some(switch_to(c, LanguageTarget::English)),
        !c.editable ==> auto_switch::observed(
            auto_switch::initial_switcher(enabled, start),
            c,
            o,
        ).1 is None,
{
    lemma_all_rules_differ();
}

/// A switcher that has seen nothing remembers no design application.
pub proof fn a_new_switcher_remembers_nothing(enabled: bool, start: Instant, process_id: u32)
    ensures
        !auto_switch::initial_switcher(enabled, start).adobe_editable.contains(process_id),
        !auto_switch::initial_switcher(enabled, start).adobe_attempts.contains_key(process_id),
{
}

} // verus!
