//! What holds of the input method and of switching it.

use vstd::prelude::*;

use crate::auto_switch::{LanguageTarget, SwitchRequest};
use crate::ime_detector;
use crate::ime_detector::{ImeAnswers, ImeQuestion, ThreadFocus};
use crate::language_switch;
use crate::language_switch::ImeCommand;

verus! {

/// The layout is one of Chinese, whatever the region, or there is none.
pub open spec fn layout_may_be_chinese(layout: usize) -> bool {
    layout as int % 0x1_0000 == 0 || layout as int % 0x400 == 4
}

/// With a Chinese layout, or none, and an input method window that is open, the mode
/// is Chinese exactly when the lowest bit of the conversion mode is set.
pub proof fn the_native_flag_decides(layout: usize, hwnd: usize, status: usize, mode: usize)
    requires
        layout_may_be_chinese(layout),
        hwnd != 0,
        status != 0,
    ensures
        ime_detector::chinese_mode(
            ImeAnswers {
                layout,
                ime_hwnd: Some(hwnd),
                open_status: Some(Some(status)),
                conversion_mode: Some(Some(mode)),
            },
        ) <==> mode as int % 2 == 1,
{
}

/// Conversion modes that agree in the lowest bit are the same mode, whatever their
/// other bits are.
pub proof fn the_other_flags_do_not_matter(a: ImeAnswers, mode: usize, other: usize)
    requires
        mode as int % 2 == other as int % 2,
    ensures
        ime_detector::chinese_mode(ImeAnswers { conversion_mode: Some(Some(mode)), ..a })
            == ime_detector::chinese_mode(ImeAnswers { conversion_mode: Some(Some(other)), ..a }),
{
}

/// Nothing but the language of the layout, whether the input method is there and
/// open, and its native flag counts.
pub proof fn handles_and_statuses_count_by_being_there(
    a: ImeAnswers,
    layout: usize,
    hwnd: usize,
    status: usize,
)
    requires
        layout as int % 0x1_0000 == a.layout as int % 0x1_0000,
        a.ime_hwnd matches Some(h) && (h == 0) == (hwnd == 0),
        a.open_status matches Some(Some(s)) && (s == 0) == (status == 0),
    ensures
        ime_detector::chinese_mode(
            ImeAnswers {
                layout,
                ime_hwnd: Some(hwnd),
                open_status: Some(Some(status)),
                ..a
            },
        ) == ime_detector::chinese_mode(a),
{
}

/// An input method that is missing, closed or does not answer is not in Chinese mode,
/// and neither is one under the layout of another language.
pub proof fn chinese_mode_needs_every_sign(a: ImeAnswers)
    requires
        ime_detector::chinese_mode(a),
    ensures
        layout_may_be_chinese(a.layout),
        a.ime_hwnd matches Some(hwnd) && hwnd != 0,
        a.open_status matches Some(Some(status)) && status != 0,
        a.conversion_mode matches Some(Some(mode)) && mode as int % 2 == 1,
{
}

/// What is asked: nothing under the layout of another language; else first for the
/// input method window, then whether it is open, and then for its mode.
pub proof fn questions_come_in_order(a: ImeAnswers)
    ensures
        !layout_may_be_chinese(a.layout) ==> ime_detector::question_left(a) is None,
        layout_may_be_chinese(a.layout) ==> {
            &&& a.ime_hwnd is None ==> ime_detector::question_left(a) == Some(
                ImeQuestion::ImeWindow,
            )
            &&& a.ime_hwnd == Some(0usize) ==> ime_detector::question_left(a) is None
            &&& a.ime_hwnd is Some && a.ime_hwnd != Some(0usize) ==> {
                &&& a.open_status is None ==> ime_detector::question_left(a) == Some(
                    ImeQuestion::OpenStatus,
                )
                &&& a.open_status is Some && (a.open_status->0 is None || a.open_status->0 == Some(
                    0usize,
                )) ==> ime_detector::question_left(a) is None
                &&& a.open_status is Some && a.open_status->0 is Some && a.open_status->0 != Some(
                    0usize,
                ) ==> ime_detector::question_left(a) == (if a.conversion_mode is None {
                    Some(ImeQuestion::ConversionMode)
                } else {
                    None
                })
            }
        },
{
}

/// A language identifier is that of Chinese by its lowest ten bits, whatever the
/// region in the bits above them.
pub proof fn the_region_does_not_matter(primary: int, region: int, other: int)
    requires
        0 <= primary < 0x400,
        0 <= region,
        0 <= other,
    ensures
        ime_detector::is_chinese(primary + 0x400 * region) <==> primary == 4,
        ime_detector::is_chinese(primary + 0x400 * region) == ime_detector::is_chinese(
            primary + 0x400 * other,
        ),
{
}

/// The focused window counts before the active one, and that before the window in
/// front. Without a window in front there is none.
pub proof fn the_focus_counts_first(foreground: usize, focus: usize, active: usize)
    ensures
        ime_detector::input_window(foreground, None) == foreground,
        ({
            let reported = Some(ThreadFocus { focus_hwnd: focus, active_hwnd: active });
            let window = ime_detector::input_window(foreground, reported);
            &&& foreground == 0 ==> window == 0
            &&& foreground != 0 && focus != 0 ==> window == focus
            &&& foreground != 0 && focus == 0 && active != 0 ==> window == active
            &&& focus == 0 && active == 0 ==> window == foreground
        }),
{
}

/// What an input method answers once it carried out the commands: the last value of
/// each command counts.
pub open spec fn answers_after(a: ImeAnswers, commands: Seq<ImeCommand>) -> ImeAnswers
    decreases commands.len(),
{
    if commands.len() == 0 {
        a
    } else {
        let before = answers_after(a, commands.drop_last());
        let last = commands.last();
        if last.command == 0x0006 {
            ImeAnswers { open_status: Some(Some(last.value as usize)), ..before }
        } else if last.command == 0x0002 {
            ImeAnswers { conversion_mode: Some(Some(last.value as usize)), ..before }
        } else {
            before
        }
    }
}

/// A switch that was carried out is seen: once an input method window under a Chinese
/// layout got the commands for a language, it is found in the mode of that language.
pub proof fn a_switch_is_found_again(
    layout: usize,
    hwnd: usize,
    target: LanguageTarget,
    status: Option<Option<usize>>,
    mode: Option<Option<usize>>,
)
    requires
        layout_may_be_chinese(layout),
        hwnd != 0,
    ensures
        ({
            let before = ImeAnswers {
                layout,
                ime_hwnd: Some(hwnd),
                open_status: status,
                conversion_mode: mode,
            };
            let commands = language_switch::window_commands(target, hwnd);
            ime_detector::chinese_mode(answers_after(before, commands)) <==> target is Chinese
        }),
{
    reveal_with_fuel(answers_after, 3);
    let commands = language_switch::window_commands(target, hwnd);
    assert(target is Chinese ==> commands.len() == 2 && commands.drop_last().len() == 1);
    assert(target is English ==> commands.len() == 1 && commands.drop_last().len() == 0);
}

/// The commands open the input method and set native characters for Chinese, and
/// close it for English. They go to the window that they are for, and a window that
/// does not exist gets none.
pub proof fn commands_open_or_close(target: LanguageTarget, hwnd: usize)
    ensures
        ({
            let commands = language_switch::window_commands(target, hwnd);
            &&& hwnd == 0 ==> commands.len() == 0
            &&& hwnd != 0 && target is Chinese ==> commands.len() == 2
            &&& hwnd != 0 && target is English ==> commands.len() == 1
            &&& hwnd != 0 ==> commands[0].command == 6 && commands[0].value == (
            if target is Chinese {
                1isize
            } else {
                0isize
            })
            &&& hwnd != 0 && target is Chinese ==> commands[1].command == 2 && commands[1].value
                == 1
            &&& forall|i: int| 0 <= i < commands.len() ==> (#[trigger] commands[i]).ime_hwnd == hwnd
        }),
{
}

/// The input method window that was there before gets its commands, and so does the
/// one that is there afterwards: each once, in this order.
pub proof fn both_input_methods_are_told(target: LanguageTarget, before: usize, after: usize)
    ensures
        language_switch::ime_commands(target, before, before) == language_switch::window_commands(
            target,
            before,
        ),
        before != after ==> language_switch::ime_commands(target, before, after)
            == language_switch::window_commands(target, before) + language_switch::window_commands(
            target,
            after,
        ),
{
}

/// The focused window is asked first.
pub proof fn the_focused_window_is_asked_first(request: SwitchRequest)
    ensures
        ({
            let windows = language_switch::windows_to_ask(request);
            &&& request.focused_hwnd != 0 ==> windows.len() > 0 && windows[0]
                == request.focused_hwnd
            &&& forall|i: int|
                0 <= i < windows.len() ==> #[trigger] windows[i] == request.focused_hwnd
                    || windows[i] == request.foreground_hwnd
            &&& windows.len() <= 2
        }),
{
}

/// Each language has its own layout, and the status of its input method.
pub proof fn languages_have_their_layouts(chinese: Seq<char>, english: Seq<char>)
    ensures
        language_switch::layout_of(LanguageTarget::Chinese, chinese, english) == chinese,
        language_switch::layout_of(LanguageTarget::English, chinese, english) == english,
        language_switch::open_status(LanguageTarget::Chinese) == 1,
        language_switch::open_status(LanguageTarget::English) == 0,
{
}

/// A window that did not take the request gets no commands. A switch has succeeded
/// exactly where some window took it, whatever the others did.
pub proof fn a_switch_succeeds_where_it_is_taken(
    target: LanguageTarget,
    before: usize,
    after: usize,
    earlier: bool,
    sent: bool,
)
    ensures
        language_switch::commands_after(target, false, before, after).len() == 0,
        language_switch::commands_after(target, true, before, after).len() == (if before == after {
            language_switch::window_commands(target, before).len()
        } else {
            language_switch::window_commands(target, before).len()
                + language_switch::window_commands(target, after).len()
        }),
        language_switch::reached(earlier, sent) <==> earlier || sent,
        language_switch::reached(true, sent),
{
}

} // verus!
