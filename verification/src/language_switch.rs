//! Carrying out a switch of the input language.
//!
//! The focused window and the window in front are each asked to change their
//! layout. Then the input method windows that they had before and have now are
//! opened or closed.

use vstd::prelude::*;

use crate::auto_switch::{LanguageTarget, SwitchRequest};

verus! {

/// Sets the conversion mode of an input method.
pub const IMC_SETCONVERSIONMODE: usize = 0x0002;

/// Opens or closes an input method.
pub const IMC_SETOPENSTATUS: usize = 0x0006;

/// The conversion mode of native characters.
pub const IME_CMODE_NATIVE: isize = 0x0001;

/// A command to an input method window.
#[derive(Debug, Clone, Copy, PartialEq, Eq, Structural)]
pub struct ImeCommand {
    pub ime_hwnd: usize,
    pub command: usize,
    pub value: isize,
}

/// Whether the input method is open in the language `target`.
pub open spec fn open_status(target: LanguageTarget) -> isize {
    match target {
        LanguageTarget::Chinese => 1,
        LanguageTarget::English => 0,
    }
}

/// Whether the input method is open in the language `target`.
pub fn ime_open_status_for_target(target: LanguageTarget) -> (status: isize)
    ensures
        status == open_status(target),
{
    match target {
        LanguageTarget::Chinese => 1,
        LanguageTarget::English => 0,
    }
}

/// The layout of the language `target`, of those of both languages.
pub open spec fn layout_of<T>(target: LanguageTarget, chinese: T, english: T) -> T {
    match target {
        LanguageTarget::Chinese => chinese,
        LanguageTarget::English => english,
    }
}

/// What a window that was asked is sent: nothing where it did not take the request.
pub open spec fn commands_after(
    target: LanguageTarget,
    sent: bool,
    before: usize,
    after: usize,
) -> Seq<ImeCommand> {
    if sent {
        ime_commands(target, before, after)
    } else {
        Seq::empty()
    }
}

/// Some window took the request, now or before.
pub open spec fn reached(before: bool, sent: bool) -> bool {
    before || sent
}

/// The keyboard layout of the language `target`.
pub fn layout_for_target<'a>(
    target: LanguageTarget,
    chinese_klid: &'a str,
    english_klid: &'a str,
) -> (klid: &'a str)
    ensures
        target is Chinese ==> klid == chinese_klid,
        target is English ==> klid == english_klid,
        klid == layout_of(target, chinese_klid, english_klid),
{
    match target {
        LanguageTarget::Chinese => chinese_klid,
        LanguageTarget::English => english_klid,
    }
}

/// The windows to ask for a switch: the focused one, then the one in front. A
/// window that does not exist, or that was asked already, is passed over.
pub open spec fn windows_to_ask(request: SwitchRequest) -> Seq<usize> {
    let focused = if request.focused_hwnd == 0 {
        Seq::empty()
    } else {
        seq![request.focused_hwnd]
    };
    if request.foreground_hwnd == 0 || request.foreground_hwnd == request.focused_hwnd {
        focused
    } else {
        focused.push(request.foreground_hwnd)
    }
}

/// The commands that bring one input method window to the language `target`.
pub open spec fn window_commands(target: LanguageTarget, ime_hwnd: usize) -> Seq<ImeCommand> {
    let open = ImeCommand { ime_hwnd, command: IMC_SETOPENSTATUS, value: open_status(target) };
    let native = ImeCommand { ime_hwnd, command: IMC_SETCONVERSIONMODE, value: IME_CMODE_NATIVE };
    if ime_hwnd == 0 {
        Seq::empty()
    } else if target is Chinese {
        seq![open, native]
    } else {
        seq![open]
    }
}

/// The commands for a window that changed its layout, whose input method windows
/// were `before` and are `after`.
pub open spec fn ime_commands(
    target: LanguageTarget,
    before: usize,
    after: usize,
) -> Seq<ImeCommand> {
    if before == after {
        window_commands(target, before)
    } else {
        window_commands(target, before) + window_commands(target, after)
    }
}

/// A switch under way.
pub struct LanguageSwitch {
    target: LanguageTarget,
    any_sent: bool,
}

impl LanguageSwitch {
    /// The language to switch to.
    pub closed spec fn target(self) -> LanguageTarget {
        self.target
    }

    /// Some window took the request.
    pub closed spec fn any_sent(self) -> bool {
        self.any_sent
    }

    /// Begins a switch, and tells which windows to ask, in order.
    pub fn begin(request: &SwitchRequest) -> (started: (LanguageSwitch, Vec<usize>))
        ensures
            started.0.target() == request.target,
            !started.0.any_sent(),
            started.1@ == windows_to_ask(*request),
    {
        let mut windows: Vec<usize> = Vec::new();
        if request.focused_hwnd != 0 {
            windows.push(request.focused_hwnd);
        }
        assert(windows@ =~= (if request.focused_hwnd == 0 {
            Seq::empty()
        } else {
            seq![request.focused_hwnd]
        }));
        if request.foreground_hwnd != 0 && request.foreground_hwnd != request.focused_hwnd {
            windows.push(request.foreground_hwnd);
        }
        (LanguageSwitch { target: request.target, any_sent: false }, windows)
    }

    /// Goes on after a window was asked: `sent` tells whether it took the request.
    /// Returns the commands to send to its input method windows, in order.
    pub fn asked(&mut self, sent: bool, ime_before: usize, ime_after: usize) -> (commands: Vec<
        ImeCommand,
    >)
        ensures
            final(self).target() == old(self).target(),
            final(self).any_sent() == reached(old(self).any_sent(), sent),
            commands@ == commands_after(old(self).target(), sent, ime_before, ime_after),
    {
        let mut commands: Vec<ImeCommand> = Vec::new();
        if !sent {
            return commands;
        }
        self.any_sent = true;
        self.push_commands(&mut commands, ime_before);
        if ime_before != ime_after {
            self.push_commands(&mut commands, ime_after);
        }
        assert(commands@ =~= ime_commands(self.target, ime_before, ime_after));
        commands
    }

    fn push_commands(&self, commands: &mut Vec<ImeCommand>, ime_hwnd: usize)
        ensures
            final(commands)@ == old(commands)@ + window_commands(self.target(), ime_hwnd),
    {
        if ime_hwnd != 0 {
            commands.push(
                ImeCommand {
                    ime_hwnd,
                    command: IMC_SETOPENSTATUS,
                    value: ime_open_status_for_target(self.target),
                },
            );
            if self.target == LanguageTarget::Chinese {
                commands.push(
                    ImeCommand {
                        ime_hwnd,
                        command: IMC_SETCONVERSIONMODE,
                        value: IME_CMODE_NATIVE,
                    },
                );
            }
        }
        assert(commands@ =~= old(commands)@ + window_commands(self.target, ime_hwnd));
    }

    /// Whether the switch reached any window.
    pub fn succeeded(&self) -> (yes: bool)
        ensures
            yes == self.any_sent(),
    {
        self.any_sent
    }
}

/// Windows that exist are asked, and each of them once.
pub proof fn windows_are_asked_once(request: SwitchRequest)
    ensures
        windows_to_ask(request).no_duplicates(),
        !windows_to_ask(request).contains(0),
        request.focused_hwnd != 0 ==> windows_to_ask(request).contains(request.focused_hwnd),
        request.foreground_hwnd != 0 ==> windows_to_ask(request).contains(request.foreground_hwnd),
{
    let windows = windows_to_ask(request);
    if request.focused_hwnd != 0 {
        assert(windows[0] == request.focused_hwnd);
    }
    if request.foreground_hwnd != 0 {
        assert(windows[windows.len() - 1] == request.foreground_hwnd);
    }
}

} // verus!
