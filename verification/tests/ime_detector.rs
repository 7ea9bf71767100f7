use ime_indicator::ime_detector::{
    get_focused_window, is_chinese_lang_id, is_chinese_mode, ImeAnswers, ImeQuestion, ThreadFocus,
};

#[test]
fn keyboard_layout_language_must_be_chinese() {
    assert!(is_chinese_lang_id(0x0804));
    assert!(is_chinese_lang_id(0x0404));
    assert!(!is_chinese_lang_id(0x0409));
}

#[test]
fn the_focused_window_counts_first() {
    let both = ThreadFocus { focus_hwnd: 2, active_hwnd: 3 };
    let active = ThreadFocus { focus_hwnd: 0, active_hwnd: 3 };
    let neither = ThreadFocus { focus_hwnd: 0, active_hwnd: 0 };
    assert_eq!(get_focused_window(1, Some(both)), 2);
    assert_eq!(get_focused_window(1, Some(active)), 3);
    assert_eq!(get_focused_window(1, Some(neither)), 1);
    assert_eq!(get_focused_window(1, None), 1);
    assert_eq!(get_focused_window(0, Some(both)), 0);
}

#[test]
fn questions_are_asked_until_the_mode_is_known() {
    let mut answers = ImeAnswers::new(0x0804_0804);
    assert_eq!(answers.next_question(), Some(ImeQuestion::ImeWindow));
    answers.ime_hwnd = Some(7);
    assert_eq!(answers.next_question(), Some(ImeQuestion::OpenStatus));
    answers.open_status = Some(Some(1));
    assert_eq!(answers.next_question(), Some(ImeQuestion::ConversionMode));
    answers.conversion_mode = Some(Some(0x401));
    assert_eq!(answers.next_question(), None);
    assert!(is_chinese_mode(&answers));
    answers.conversion_mode = Some(Some(0x400));
    assert!(!is_chinese_mode(&answers));
    answers.conversion_mode = Some(None);
    assert!(!is_chinese_mode(&answers));
}

#[test]
fn another_layout_ends_the_questions() {
    let mut answers = ImeAnswers::new(0x0409_0409);
    assert_eq!(answers.next_question(), None);
    answers.ime_hwnd = Some(7);
    answers.open_status = Some(Some(1));
    answers.conversion_mode = Some(Some(1));
    assert!(!is_chinese_mode(&answers));
}

#[test]
fn no_layout_rules_out_nothing() {
    let mut answers = ImeAnswers::new(0);
    assert_eq!(answers.next_question(), Some(ImeQuestion::ImeWindow));
    answers.ime_hwnd = Some(0);
    assert_eq!(answers.next_question(), None);
    assert!(!is_chinese_mode(&answers));
}

#[test]
fn a_closed_or_silent_input_method_is_not_chinese() {
    for status in [Some(0), None] {
        let mut answers = ImeAnswers::new(0x0804);
        answers.ime_hwnd = Some(7);
        answers.open_status = Some(status);
        assert_eq!(answers.next_question(), None);
        assert!(!is_chinese_mode(&answers));
    }
}
