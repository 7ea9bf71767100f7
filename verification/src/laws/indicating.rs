//! What holds of the dots.

use vstd::prelude::*;

use crate::clock;
use crate::indicator_loop;
use crate::indicator_loop::{DotCommand, IndicatorSettings, IndicatorState, StateCheck};

verus! {

/// Whether a dot is visible once a command was carried out.
pub open spec fn visible_after(visible: bool, command: DotCommand) -> bool {
    match command {
        DotCommand::Show => true,
        DotCommand::Hide => false,
        DotCommand::Keep => visible,
    }
}

/// A dot is visible exactly while it is to be shown, and nothing is done to a dot
/// that is as it should be.
pub proof fn dots_are_visible_as_wanted(active: bool, wanted: bool)
    ensures
        visible_after(active, indicator_loop::command(active, wanted)) == wanted,
        indicator_loop::command(active, wanted) is Keep <==> active == wanted,
{
}

/// The dot at the caret is shown exactly where there is a caret that is not in a
/// read-only document, in Chinese mode or where English is shown too.
pub proof fn the_caret_dot_follows_the_caret(
    s: IndicatorState,
    c: StateCheck,
    settings: IndicatorSettings,
)
    requires
        settings.caret_enable,
    ensures
        indicator_loop::checked_state(s, c, settings).caret_active <==> c.has_caret
            && !c.readonly_document && (c.chinese_mode || settings.caret_show_en),
{
}

/// The dot at the caret is never shown in a read-only document.
pub proof fn readonly_documents_show_no_caret_dot(
    s: IndicatorState,
    c: StateCheck,
    settings: IndicatorSettings,
)
    ensures
        c.readonly_document ==> !indicator_loop::checked_state(s, c, settings).caret_active,
{
}

/// In Chinese mode the dot is at every caret that is not in a read-only document,
/// also where the focus is not recognised as taking text.
pub proof fn chinese_mode_shows_at_the_caret(
    s: IndicatorState,
    c: StateCheck,
    settings: IndicatorSettings,
)
    requires
        settings.caret_enable,
        c.chinese_mode,
        c.has_caret,
        !c.readonly_document,
    ensures
        indicator_loop::checked_state(s, c, settings).caret_active,
{
}

/// A switch by hand shows at the mouse where no input is recognised, in either
/// mode.
pub proof fn a_switch_by_hand_is_shown(
    s: IndicatorState,
    c: StateCheck,
    settings: IndicatorSettings,
)
    requires
        settings.mouse_enable,
        indicator_loop::same_windows(s, c),
        !s.switching,
        !c.editable,
        c.chinese_mode != s.chinese_mode,
    ensures
        indicator_loop::checked_state(s, c, settings).mouse_active,
{
}

/// Going to another window shows no switch, whatever mode that window is in, and
/// ends the dot of one.
pub proof fn going_to_another_window_is_no_switch(
    s: IndicatorState,
    c: StateCheck,
    settings: IndicatorSettings,
)
    requires
        !indicator_loop::same_windows(s, c),
        !c.editable,
    ensures
        !indicator_loop::checked_state(s, c, settings).mouse_active,
{
}

/// The dot of a switch by hand goes again after its time.
pub proof fn the_dot_of_a_switch_goes_again(
    s: IndicatorState,
    c: StateCheck,
    settings: IndicatorSettings,
)
    requires
        c.chinese_mode == s.chinese_mode,
        !c.editable,
        s.hint matches Some(at) ==> clock::elapsed(at, c.now) >= clock::millis(
            settings.hint_ms as int,
        ),
    ensures
        !indicator_loop::checked_state(s, c, settings).mouse_active,
{
}

/// A switch that was asked for is not shown as one by hand.
pub proof fn automatic_switches_are_not_shown(
    s: IndicatorState,
    c: StateCheck,
    settings: IndicatorSettings,
)
    requires
        s.switching,
        s.hint is None,
        !c.editable,
    ensures
        !indicator_loop::checked_state(s, c, settings).mouse_active,
{
}

/// A dot that is turned off is never shown.
pub proof fn disabled_dots_are_not_shown(
    s: IndicatorState,
    c: StateCheck,
    settings: IndicatorSettings,
)
    ensures
        !settings.caret_enable ==> !indicator_loop::checked_state(s, c, settings).caret_active,
        !settings.mouse_enable ==> !indicator_loop::checked_state(s, c, settings).mouse_active,
{
}

/// Over an input the dot at the mouse is shown exactly when the mouse has one of the
/// configured shapes, in Chinese mode or where English is shown too.
pub proof fn the_mouse_dot_needs_the_shape(
    s: IndicatorState,
    c: StateCheck,
    settings: IndicatorSettings,
)
    requires
        settings.mouse_enable,
        c.editable,
    ensures
        indicator_loop::checked_state(s, c, settings).mouse_active <==> c.target_cursor && (
        c.chinese_mode || settings.mouse_show_en),
{
}

/// Outside inputs the dot at the mouse is shown exactly after a switch by hand in the
/// same windows: one that this check finds, or one less than the configured time ago.
pub proof fn outside_inputs_only_a_switch_shows(
    s: IndicatorState,
    c: StateCheck,
    settings: IndicatorSettings,
)
    requires
        settings.mouse_enable,
        !c.editable,
    ensures
        indicator_loop::checked_state(s, c, settings).mouse_active <==> {
            &&& s.checked
            &&& c.foreground_hwnd == s.foreground_hwnd
            &&& c.focused_hwnd == s.focused_hwnd
            &&& {
                ||| c.chinese_mode != s.chinese_mode && !s.switching
                ||| s.hint matches Some(at) && (c.now.nanos < at.nanos || c.now.nanos - at.nanos
                    < settings.hint_ms * 1_000_000) && settings.hint_ms > 0
            }
        },
{
}

/// What a check found is what the next one compares with, and a switch by hand is
/// remembered with its time as long as it is shown.
pub proof fn a_check_is_remembered(s: IndicatorState, c: StateCheck, settings: IndicatorSettings)
    ensures
        ({
            let after = indicator_loop::checked_state(s, c, settings);
            &&& after.checked
            &&& after.last_check == c.now
            &&& after.chinese_mode == c.chinese_mode
            &&& after.foreground_hwnd == c.foreground_hwnd
            &&& after.focused_hwnd == c.focused_hwnd
            &&& after.switching == c.switch_requested
            &&& after.hint is Some ==> !c.editable && (after.hint == Some(c.now) || after.hint
                == s.hint)
            &&& !c.editable && s.checked && c.foreground_hwnd == s.foreground_hwnd
                && c.focused_hwnd == s.focused_hwnd && c.chinese_mode != s.chinese_mode
                && !s.switching ==> after.hint == Some(c.now)
        }),
{
}

/// A switch by hand shows for its whole time and no longer, over two checks of the
/// same windows.
pub proof fn a_switch_shows_for_its_time(
    s: IndicatorState,
    c: StateCheck,
    next: StateCheck,
    settings: IndicatorSettings,
)
    requires
        settings.mouse_enable,
        s.checked,
        !s.switching,
        !c.editable,
        c.chinese_mode != s.chinese_mode,
        c.foreground_hwnd == s.foreground_hwnd,
        c.focused_hwnd == s.focused_hwnd,
        !next.editable,
        next.chinese_mode == c.chinese_mode,
        next.foreground_hwnd == c.foreground_hwnd,
        next.focused_hwnd == c.focused_hwnd,
        c.now.nanos <= next.now.nanos,
    ensures
        ({
            let after = indicator_loop::checked_state(s, c, settings);
            indicator_loop::checked_state(after, next, settings).mouse_active <==> next.now.nanos
                - c.now.nanos < settings.hint_ms * 1_000_000
        }),
{
}

/// The state is checked when the interval has passed since the last check, and not
/// before.
pub proof fn checks_keep_their_interval(
    s: IndicatorState,
    now: clock::Instant,
    settings: IndicatorSettings,
)
    requires
        s.last_check.nanos <= now.nanos,
    ensures
        indicator_loop::check_is_due(s, now, settings) <==> now.nanos - s.last_check.nanos
            >= settings.state_interval_ms * 1_000_000,
{
}

/// A dot follows between the checks exactly while it is shown.
pub proof fn shown_dots_follow(s: IndicatorState, c: StateCheck, settings: IndicatorSettings)
    ensures
        ({
            let after = indicator_loop::checked_state(s, c, settings);
            &&& indicator_loop::caret_is_followed(after, settings) == after.caret_active
            &&& indicator_loop::mouse_is_followed(after, settings) == after.mouse_active
        }),
{
}

/// What is done to a dot: it is shown when it begins to be wanted, hidden when it
/// ends, and left as it is otherwise.
pub proof fn dots_change_only_when_wanted_otherwise(active: bool, wanted: bool)
    ensures
        indicator_loop::command(active, wanted) is Show <==> !active && wanted,
        indicator_loop::command(active, wanted) is Hide <==> active && !wanted,
{
}

/// At the first check no switch shows, whatever mode it finds, and no dot is shown before
/// it. The time to the first check counts from the start.
pub proof fn the_first_check_shows_no_switch(
    start: clock::Instant,
    c: StateCheck,
    settings: IndicatorSettings,
)
    ensures
        !indicator_loop::unchecked(start).caret_active,
        !indicator_loop::unchecked(start).mouse_active,
        indicator_loop::unchecked(start).last_check == start,
        !c.editable ==> !indicator_loop::checked_state(
            indicator_loop::unchecked(start),
            c,
            settings,
        ).mouse_active,
{
}

} // verus!
