//! When the dots are shown.
//!
//! The state is checked at intervals. Between the checks the dots that are shown
//! follow the caret and the mouse.

use vstd::prelude::*;

use crate::clock;
use crate::clock::Instant;

verus! {

/// What is configured for the dots.
#[derive(Debug, Clone, Copy, PartialEq, Eq, Structural)]
pub struct IndicatorSettings {
    /// Time in milliseconds between two checks of the state.
    pub state_interval_ms: u64,
    pub caret_enable: bool,
    /// The dot at the caret is shown in English mode too.
    pub caret_show_en: bool,
    pub mouse_enable: bool,
    /// The dot at the mouse is shown in English mode too.
    pub mouse_show_en: bool,
    /// Time in milliseconds for which a switch by hand is shown at the mouse where
    /// no input is recognised.
    pub hint_ms: u64,
}

/// What a check of the state found.
#[derive(Debug, Clone, Copy, PartialEq, Eq, Structural)]
pub struct StateCheck {
    pub now: Instant,
    /// The window in front.
    pub foreground_hwnd: usize,
    /// The window that has the focus.
    pub focused_hwnd: usize,
    /// The input method is in Chinese mode.
    pub chinese_mode: bool,
    /// The place of the caret is known.
    pub has_caret: bool,
    /// The focus takes text.
    pub editable: bool,
    /// The focus is a document that is known to take no text.
    pub readonly_document: bool,
    /// The mouse has one of the shapes at which the dot is shown.
    pub target_cursor: bool,
    /// A switch was asked for in this check.
    pub switch_requested: bool,
}

/// What is to be done with a dot.
#[derive(Debug, Clone, Copy, PartialEq, Eq, Structural)]
pub enum DotCommand {
    Show,
    Hide,
    Keep,
}

/// The dots that are shown, and what is known of the state.
#[derive(Debug, Clone, Copy, PartialEq, Eq, Structural)]
pub struct IndicatorState {
    /// When the state was last checked.
    pub last_check: Instant,
    /// The state was checked before.
    pub checked: bool,
    /// The window that was in front at the last check.
    pub foreground_hwnd: usize,
    /// The window that had the focus at the last check.
    pub focused_hwnd: usize,
    pub chinese_mode: bool,
    pub caret_active: bool,
    pub mouse_active: bool,
    /// A switch was asked for in the last check, so the next change of the mode is
    /// not one by hand.
    pub switching: bool,
    /// When the mode was last switched by hand in these windows where no input is
    /// recognised.
    pub hint: Option<Instant>,
}

/// The check finds the windows of the one before.
pub open spec fn same_windows(s: IndicatorState, c: StateCheck) -> bool {
    s.checked && c.foreground_hwnd == s.foreground_hwnd && c.focused_hwnd == s.focused_hwnd
}

/// The mode was switched by hand where no input is recognised. Each window has a
/// mode of its own, so going to another one switches nothing.
pub open spec fn switched_by_hand(s: IndicatorState, c: StateCheck) -> bool {
    same_windows(s, c) && c.chinese_mode != s.chinese_mode && !c.editable && !s.switching
}

/// The last switch by hand, as far as it is still to be shown.
pub open spec fn hint_left(
    s: IndicatorState,
    c: StateCheck,
    settings: IndicatorSettings,
) -> Option<Instant> {
    if switched_by_hand(s, c) {
        Some(c.now)
    } else {
        match s.hint {
            Some(at) if same_windows(s, c) && !c.editable && clock::elapsed(at, c.now)
                < clock::millis(settings.hint_ms as int) => Some(at),
            _ => None,
        }
    }
}

/// The dot at the caret is to be shown: wherever there is a caret, unless the focus
/// is known to take no text.
pub open spec fn caret_wanted(c: StateCheck, settings: IndicatorSettings) -> bool {
    &&& settings.caret_enable
    &&& c.has_caret
    &&& !c.readonly_document
    &&& c.chinese_mode || settings.caret_show_en
}

/// The dot at the mouse is to be shown: over an input, or for a moment after a
/// switch by hand.
pub open spec fn mouse_wanted(
    s: IndicatorState,
    c: StateCheck,
    settings: IndicatorSettings,
) -> bool {
    &&& settings.mouse_enable
    &&& {
        ||| c.editable && c.target_cursor && (c.chinese_mode || settings.mouse_show_en)
        ||| hint_left(s, c, settings) is Some
    }
}

/// What makes a dot that is shown or not into one that is to be shown or not.
pub open spec fn command(active: bool, wanted: bool) -> DotCommand {
    if wanted == active {
        DotCommand::Keep
    } else if wanted {
        DotCommand::Show
    } else {
        DotCommand::Hide
    }
}

/// The state after a check.
pub open spec fn checked_state(
    s: IndicatorState,
    c: StateCheck,
    settings: IndicatorSettings,
) -> IndicatorState {
    IndicatorState {
        last_check: c.now,
        checked: true,
        foreground_hwnd: c.foreground_hwnd,
        focused_hwnd: c.focused_hwnd,
        chinese_mode: c.chinese_mode,
        caret_active: caret_wanted(c, settings),
        mouse_active: mouse_wanted(s, c, settings),
        switching: c.switch_requested,
        hint: hint_left(s, c, settings),
    }
}

/// Nothing was checked yet, and no dot is shown.
pub open spec fn unchecked(now: Instant) -> IndicatorState {
    IndicatorState {
        last_check: now,
        checked: false,
        foreground_hwnd: 0,
        focused_hwnd: 0,
        chinese_mode: false,
        caret_active: false,
        mouse_active: false,
        switching: false,
        hint: None,
    }
}

/// The interval between two checks has passed.
pub open spec fn check_is_due(s: IndicatorState, now: Instant, settings: IndicatorSettings) -> bool {
    clock::elapsed(s.last_check, now) >= clock::millis(settings.state_interval_ms as int)
}

/// The dot at the caret is shown, so it follows the caret.
pub open spec fn caret_is_followed(s: IndicatorState, settings: IndicatorSettings) -> bool {
    settings.caret_enable && s.caret_active
}

/// The dot at the mouse is shown, so it follows the mouse.
pub open spec fn mouse_is_followed(s: IndicatorState, settings: IndicatorSettings) -> bool {
    settings.mouse_enable && s.mouse_active
}

impl IndicatorState {
    /// No dot is shown.
    pub fn new(now: Instant) -> (state: IndicatorState)
        ensures
            state == (IndicatorState {
                last_check: now,
                checked: false,
                foreground_hwnd: 0,
                focused_hwnd: 0,
                chinese_mode: false,
                caret_active: false,
                mouse_active: false,
                switching: false,
                hint: None,
            }),
            state == unchecked(now),
    {
        IndicatorState {
            last_check: now,
            checked: false,
            foreground_hwnd: 0,
            focused_hwnd: 0,
            chinese_mode: false,
            caret_active: false,
            mouse_active: false,
            switching: false,
            hint: None,
        }
    }

    /// Whether the state is to be checked.
    pub fn is_due(&self, now: Instant, settings: &IndicatorSettings) -> (due: bool)
        ensures
            due == check_is_due(*self, now, *settings),
    {
        now.duration_since(self.last_check).at_least(settings.state_interval_ms)
    }

    /// Takes over a check of the state, and tells what is to be done with the dots
    /// at the caret and at the mouse.
    pub fn check(&mut self, c: &StateCheck, settings: &IndicatorSettings) -> (commands: (
        DotCommand,
        DotCommand,
    ))
        ensures
            *final(self) == checked_state(*old(self), *c, *settings),
            commands.0 == command(old(self).caret_active, final(self).caret_active),
            commands.1 == command(old(self).mouse_active, final(self).mouse_active),
    {
        let same_windows = self.checked && c.foreground_hwnd == self.foreground_hwnd
            && c.focused_hwnd == self.focused_hwnd;
        let by_hand = same_windows && c.chinese_mode != self.chinese_mode && !c.editable
            && !self.switching;
        let hint = if by_hand {
            Some(c.now)
        } else {
            match self.hint {
                Some(at) => if same_windows && !c.editable && !c.now.duration_since(
                    at,
                ).at_least(settings.hint_ms) {
                    Some(at)
                } else {
                    None
                },
                None => None,
            }
        };
        let caret = settings.caret_enable && c.has_caret && !c.readonly_document && (
        c.chinese_mode || settings.caret_show_en);
        let mouse = settings.mouse_enable && ((c.editable && c.target_cursor && (c.chinese_mode
            || settings.mouse_show_en)) || hint.is_some());
        let commands = (
            Self::command_for(self.caret_active, caret),
            Self::command_for(self.mouse_active, mouse),
        );
        *self = IndicatorState {
            last_check: c.now,
            checked: true,
            foreground_hwnd: c.foreground_hwnd,
            focused_hwnd: c.focused_hwnd,
            chinese_mode: c.chinese_mode,
            caret_active: caret,
            mouse_active: mouse,
            switching: c.switch_requested,
            hint,
        };
        commands
    }

    fn command_for(active: bool, wanted: bool) -> (r: DotCommand)
        ensures
            r == command(active, wanted),
    {
        if wanted == active {
            DotCommand::Keep
        } else if wanted {
            DotCommand::Show
        } else {
            DotCommand::Hide
        }
    }

    /// Whether the dot at the caret is to follow it.
    pub fn follows_caret(&self, settings: &IndicatorSettings) -> (yes: bool)
        ensures
            yes == caret_is_followed(*self, *settings),
    {
        settings.caret_enable && self.caret_active
    }

    /// Whether the dot at the mouse is to follow it.
    pub fn follows_mouse(&self, settings: &IndicatorSettings) -> (yes: bool)
        ensures
            yes == mouse_is_followed(*self, *settings),
    {
        settings.mouse_enable && self.mouse_active
    }
}

} // verus!
