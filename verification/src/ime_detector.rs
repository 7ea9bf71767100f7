//! Whether the input method is in Chinese mode.

use vstd::prelude::*;

verus! {

/// The primary language identifier of Chinese.
pub const LANG_CHINESE: u16 = 0x04;

/// The flag of native characters in a conversion mode.
pub const IME_CMODE_NATIVE: u32 = 0x0001;

/// What the thread of a window reports of its focus. A handle of zero is no window.
#[derive(Debug, Clone, Copy, PartialEq, Eq, Structural)]
pub struct ThreadFocus {
    pub focus_hwnd: usize,
    pub active_hwnd: usize,
}

/// The window whose input method counts: the focused one, else the active one,
/// else the one in front.
pub open spec fn input_window(foreground_hwnd: usize, reported: Option<ThreadFocus>) -> usize {
    match reported {
        Some(thread) if foreground_hwnd != 0 && thread.focus_hwnd != 0 => thread.focus_hwnd,
        Some(thread) if foreground_hwnd != 0 && thread.active_hwnd != 0 => thread.active_hwnd,
        _ => foreground_hwnd,
    }
}

/// The window whose input method counts, given the window in front and what its
/// thread reports.
pub fn get_focused_window(foreground_hwnd: usize, reported: Option<ThreadFocus>) -> (hwnd: usize)
    ensures
        hwnd == input_window(foreground_hwnd, reported),
{
    if foreground_hwnd == 0 {
        return 0;
    }
    if let Some(thread) = reported {
        if thread.focus_hwnd != 0 {
            return thread.focus_hwnd;
        }
        if thread.active_hwnd != 0 {
            return thread.active_hwnd;
        }
    }
    foreground_hwnd
}

/// The language of a keyboard layout: its low sixteen bits.
pub open spec fn language_of(layout: usize) -> int {
    layout as int % 0x1_0000
}

/// A language identifier is that of some kind of Chinese: its low ten bits are the
/// primary language.
pub open spec fn is_chinese(lang_id: int) -> bool {
    lang_id % 0x400 == LANG_CHINESE
}

/// Whether a language identifier is that of some kind of Chinese.
pub fn is_chinese_lang_id(lang_id: u16) -> (yes: bool)
    ensures
        yes == is_chinese(lang_id as int),
{
    assert(lang_id & 0x03ff == lang_id % 0x400) by (bit_vector);
    lang_id & 0x03ff == LANG_CHINESE
}

/// What is known of an input method so far. A question that was not asked yet has
/// no answer; a window that did not answer in time answered with nothing.
#[derive(Debug, Clone, Copy, PartialEq, Eq)]
pub struct ImeAnswers {
    /// The keyboard layout of the window's thread.
    pub layout: usize,
    /// The input method window, or zero when there is none.
    pub ime_hwnd: Option<usize>,
    /// Whether the input method is open.
    pub open_status: Option<Option<usize>>,
    /// Its conversion mode.
    pub conversion_mode: Option<Option<usize>>,
}

/// A question about an input method.
#[derive(Debug, Clone, Copy, PartialEq, Eq, Structural)]
pub enum ImeQuestion {
    ImeWindow,
    OpenStatus,
    ConversionMode,
}

/// The layout rules out Chinese. The input method window may still be that of
/// another layout, so the layout goes first. No layout rules out nothing.
pub open spec fn layout_is_foreign(layout: usize) -> bool {
    language_of(layout) != 0 && !is_chinese(language_of(layout))
}

/// The input method window is there and open, as far as it was asked.
pub open spec fn is_open(a: ImeAnswers) -> bool {
    &&& a.ime_hwnd matches Some(hwnd) && hwnd != 0
    &&& a.open_status matches Some(Some(status)) && status != 0
}

/// The conversion mode was asked for and holds native characters.
pub open spec fn is_native(a: ImeAnswers) -> bool {
    a.conversion_mode matches Some(Some(mode)) && mode as int % 2 == 1
}

/// The input method is in Chinese mode.
pub open spec fn chinese_mode(a: ImeAnswers) -> bool {
    !layout_is_foreign(a.layout) && is_open(a) && is_native(a)
}

/// The question whose answer is needed next, if any.
pub open spec fn question_left(a: ImeAnswers) -> Option<ImeQuestion> {
    if layout_is_foreign(a.layout) {
        None
    } else if a.ime_hwnd is None {
        Some(ImeQuestion::ImeWindow)
    } else if a.ime_hwnd == Some(0usize) {
        None
    } else if a.open_status is None {
        Some(ImeQuestion::OpenStatus)
    } else if is_open(a) && a.conversion_mode is None {
        Some(ImeQuestion::ConversionMode)
    } else {
        None
    }
}

fn foreign_layout(layout: usize) -> (yes: bool)
    ensures
        yes == layout_is_foreign(layout),
{
    assert(layout & 0xffff == layout % 0x1_0000) by (bit_vector);
    let lang_id: u16 = (layout & 0xffff) as u16;
    lang_id != 0 && !is_chinese_lang_id(lang_id)
}

impl ImeAnswers {
    /// Nothing but the layout is known.
    pub fn new(layout: usize) -> (answers: ImeAnswers)
        ensures
            answers == (ImeAnswers {
                layout,
                ime_hwnd: None,
                open_status: None,
                conversion_mode: None,
            }),
    {
        ImeAnswers { layout, ime_hwnd: None, open_status: None, conversion_mode: None }
    }

    /// The question to ask next, until the mode is known.
    pub fn next_question(&self) -> (question: Option<ImeQuestion>)
        ensures
            question == question_left(*self),
    {
        if foreign_layout(self.layout) {
            return None;
        }
        match self.ime_hwnd {
            None => Some(ImeQuestion::ImeWindow),
            Some(hwnd) => if hwnd == 0 {
                None
            } else {
                match self.open_status {
                    None => Some(ImeQuestion::OpenStatus),
                    Some(Some(status)) => if status != 0 && self.conversion_mode.is_none() {
                        Some(ImeQuestion::ConversionMode)
                    } else {
                        None
                    },
                    Some(None) => None,
                }
            },
        }
    }
}

/// Whether the input method is in Chinese mode, by the answers that were given.
pub fn is_chinese_mode(answers: &ImeAnswers) -> (yes: bool)
    ensures
        yes == chinese_mode(*answers),
{
    if foreign_layout(answers.layout) {
        return false;
    }
    let open = match (answers.ime_hwnd, answers.open_status) {
        (Some(hwnd), Some(Some(status))) => hwnd != 0 && status != 0,
        _ => false,
    };
    if !open {
        return false;
    }
    match answers.conversion_mode {
        Some(Some(mode)) => {
            assert((mode as u32 & 1 != 0) == (mode % 2 == 1)) by (bit_vector);
            mode as u32 & IME_CMODE_NATIVE != 0
        },
        _ => false,
    }
}

/// The answers of `b` repeat those that `a` has.
pub open spec fn repeats(a: ImeAnswers, b: ImeAnswers) -> bool {
    &&& a.layout == b.layout
    &&& a.ime_hwnd is Some ==> a.ime_hwnd == b.ime_hwnd
    &&& a.open_status is Some ==> a.open_status == b.open_status
    &&& a.conversion_mode is Some ==> a.conversion_mode == b.conversion_mode
}

/// Once no question is left, the mode is known: no further answer changes it.
pub proof fn unasked_questions_do_not_matter(a: ImeAnswers, b: ImeAnswers)
    requires
        question_left(a) is None,
        repeats(a, b),
    ensures
        chinese_mode(b) == chinese_mode(a),
{
}

/// A window with the layout of another language is not in Chinese mode, whatever
/// its input method window answers.
pub proof fn another_layout_is_not_chinese(a: ImeAnswers)
    requires
        layout_is_foreign(a.layout),
    ensures
        !chinese_mode(a),
        question_left(a) is None,
{
}

} // verus!
