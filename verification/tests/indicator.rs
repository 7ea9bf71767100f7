use ime_indicator::clock::{Duration, Instant};
use ime_indicator::indicator_loop::{
    DotCommand, IndicatorSettings, IndicatorState, StateCheck,
};
use ime_indicator::overlay::{DotDrawing, IndicatorOverlay};

fn at(ms: u64) -> Instant {
    Instant { nanos: Duration::from_millis(ms).nanos }
}

fn settings() -> IndicatorSettings {
    IndicatorSettings {
        state_interval_ms: 100,
        caret_enable: true,
        caret_show_en: false,
        mouse_enable: true,
        mouse_show_en: false,
        hint_ms: 1000,
    }
}

fn typing(ms: u64, chinese_mode: bool) -> StateCheck {
    StateCheck {
        now: at(ms),
        foreground_hwnd: 10,
        focused_hwnd: 11,
        chinese_mode,
        has_caret: true,
        editable: true,
        readonly_document: false,
        target_cursor: true,
        switch_requested: false,
    }
}

fn elsewhere(ms: u64, chinese_mode: bool) -> StateCheck {
    StateCheck { has_caret: false, editable: false, target_cursor: false, ..typing(ms, chinese_mode) }
}

#[test]
fn the_state_is_checked_at_intervals() {
    let state = IndicatorState::new(at(50));
    assert!(!state.is_due(at(149), &settings()));
    assert!(state.is_due(at(150), &settings()));
}

#[test]
fn dots_come_and_go_with_the_mode() {
    let mut state = IndicatorState::new(at(0));
    assert_eq!(state.check(&typing(100, true), &settings()), (DotCommand::Show, DotCommand::Show));
    assert!(state.follows_caret(&settings()));
    assert!(state.follows_mouse(&settings()));
    assert_eq!(state.check(&typing(200, true), &settings()), (DotCommand::Keep, DotCommand::Keep));
    assert_eq!(state.check(&typing(300, false), &settings()), (DotCommand::Hide, DotCommand::Hide));
    assert!(!state.follows_caret(&settings()));
    assert_eq!(state.last_check, at(300));
}

#[test]
fn english_mode_is_shown_where_configured() {
    let mut shown = settings();
    shown.caret_show_en = true;
    let mut state = IndicatorState::new(at(0));
    assert_eq!(state.check(&typing(100, false), &shown), (DotCommand::Show, DotCommand::Keep));
}

#[test]
fn readonly_documents_show_no_dot() {
    let mut state = IndicatorState::new(at(0));
    let mut page = typing(100, true);
    page.editable = false;
    page.readonly_document = true;
    assert_eq!(state.check(&page, &settings()), (DotCommand::Keep, DotCommand::Keep));
}

#[test]
fn disabled_dots_stay_hidden() {
    let mut none = settings();
    none.caret_enable = false;
    none.mouse_enable = false;
    let mut state = IndicatorState::new(at(0));
    assert_eq!(state.check(&typing(100, true), &none), (DotCommand::Keep, DotCommand::Keep));
    assert!(!state.follows_caret(&none));
    assert!(!state.follows_mouse(&none));
}

#[test]
fn a_switch_by_hand_shows_for_a_moment() {
    let mut state = IndicatorState::new(at(0));
    assert_eq!(state.check(&elsewhere(100, true), &settings()).1, DotCommand::Keep);
    assert_eq!(state.check(&elsewhere(200, false), &settings()).1, DotCommand::Show);
    assert_eq!(state.check(&elsewhere(1199, false), &settings()).1, DotCommand::Keep);
    assert_eq!(state.check(&elsewhere(1200, false), &settings()).1, DotCommand::Hide);
}

#[test]
fn an_automatic_switch_does_not_show_as_one_by_hand() {
    let mut state = IndicatorState::new(at(0));
    let mut asked = elsewhere(100, true);
    asked.switch_requested = true;
    state.check(&asked, &settings());
    assert_eq!(state.check(&elsewhere(200, false), &settings()).1, DotCommand::Keep);
}

#[test]
fn the_dot_is_centred_below_the_caret() {
    let mut overlay = IndicatorOverlay::new("Caret", 8, 0xFFFF7800, 0x300000FF, 1, 3);
    assert!(overlay.can_place(100, 200, 16));
    assert_eq!(
        overlay.update(100, 200, true, 16),
        Some(DotDrawing { x: 97, y: 215, size: 8, color: 0xFFFF7800 })
    );
    assert_eq!(overlay.update(100, 200, true, 16), None);
    assert_eq!(
        overlay.update(100, 200, false, 16),
        Some(DotDrawing { x: 97, y: 215, size: 8, color: 0x300000FF })
    );
    assert_eq!(
        overlay.update(101, 200, false, 16),
        Some(DotDrawing { x: 98, y: 215, size: 8, color: 0x300000FF })
    );
}

#[test]
fn odd_sizes_round_towards_zero() {
    let mut overlay = IndicatorOverlay::new("Mouse", 7, 1, 2, 0, 0);
    assert_eq!(overlay.update(10, 10, false, 0), Some(DotDrawing { x: 7, y: 7, size: 7, color: 2 }));
    let mut turned = IndicatorOverlay::new("Mouse", -7, 1, 2, 0, 0);
    assert_eq!(turned.update(10, 10, false, 0), Some(DotDrawing { x: 13, y: 13, size: -7, color: 2 }));
}

#[test]
fn places_beyond_the_integers_are_refused() {
    let overlay = IndicatorOverlay::new("Caret", 8, 1, 2, 1, -1);
    assert!(!overlay.can_place(i32::MAX, 0, 0));
    assert!(!overlay.can_place(i32::MIN, 0, 0));
    assert!(!overlay.can_place(0, i32::MAX, 1));
    assert!(!overlay.can_place(0, i32::MIN, 0));
    assert!(overlay.can_place(0, 0, 0));
}

#[test]
fn windows_are_named_after_the_dot() {
    let overlay = IndicatorOverlay::new("Caret", 8, 1, 2, 0, 0);
    assert_eq!(overlay.class_name(), "IMEIndicator_Caret");
    assert_eq!(overlay.window_name(), "Indicator_Caret");
    assert_eq!(overlay.size(), 8);
}

#[test]
fn the_caret_dot_needs_no_recognised_input() {
    let mut state = IndicatorState::new(at(0));
    let mut unknown = typing(100, true);
    unknown.editable = false;
    assert_eq!(state.check(&unknown, &settings()), (DotCommand::Show, DotCommand::Keep));
    unknown.now = at(200);
    unknown.readonly_document = true;
    assert_eq!(state.check(&unknown, &settings()), (DotCommand::Hide, DotCommand::Keep));
}

#[test]
fn going_to_another_window_shows_no_switch() {
    let mut state = IndicatorState::new(at(0));
    state.check(&typing(100, true), &settings());
    let mut desktop = elsewhere(200, false);
    desktop.foreground_hwnd = 20;
    desktop.focused_hwnd = 20;
    assert_eq!(state.check(&desktop, &settings()), (DotCommand::Hide, DotCommand::Hide));

    let mut switched = desktop;
    switched.now = at(300);
    switched.chinese_mode = true;
    assert_eq!(state.check(&switched, &settings()), (DotCommand::Keep, DotCommand::Show));
    let mut other = switched;
    other.now = at(400);
    other.focused_hwnd = 21;
    assert_eq!(state.check(&other, &settings()), (DotCommand::Keep, DotCommand::Hide));
}
