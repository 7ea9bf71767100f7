use ime_indicator::auto_switch::{
    default_rule_for_process, double_click_target, is_adobe_design_process,
    is_indicator_only_process, is_office_edit_process, refresh_candidate,
    should_enforce_adobe_english, should_retry_editable_chinese, supports_double_click_toggle,
    target_for, AutoSwitcher, LanguageTarget, Surroundings, SwitchContextKey, SwitchRequest,
};
use ime_indicator::caret_detector::FocusContext;
use ime_indicator::clock::{Duration, Instant};
use ime_indicator::language_switch::{
    ime_open_status_for_target, layout_for_target, ImeCommand, LanguageSwitch,
    IMC_SETCONVERSIONMODE, IMC_SETOPENSTATUS,
};

fn context(editable: bool, password: bool) -> FocusContext {
    FocusContext {
        identity: "same-wechat-window".to_string(),
        foreground_hwnd: 0,
        focused_hwnd: 0,
        process_id: 1,
        editable,
        password,
        readonly_document: false,
        force_mouse_indicator: false,
        input_double_click: false,
    }
}

fn at(ms: u64) -> Instant {
    Instant { nanos: Duration::from_millis(1_000_000 + ms).nanos }
}

fn field(identity: &str, editable: bool) -> FocusContext {
    FocusContext {
        identity: identity.to_string(),
        foreground_hwnd: 10,
        focused_hwnd: 20,
        ..context(editable, false)
    }
}

fn surroundings(ms: u64, chinese_mode: bool, process_name: &str) -> Surroundings<'_> {
    Surroundings {
        now: at(ms),
        enabled: true,
        chinese_mode,
        settle_ms: 80,
        process_name,
        app_rule: None,
    }
}

fn asks(target: LanguageTarget) -> Option<SwitchRequest> {
    Some(SwitchRequest { focused_hwnd: 20, foreground_hwnd: 10, target })
}

#[test]
fn automatic_rules_follow_context() {
    assert_eq!(target_for("auto", false, true), Some(LanguageTarget::Chinese));
    assert_eq!(target_for("auto", false, false), Some(LanguageTarget::English));
    assert_eq!(target_for("auto", true, true), Some(LanguageTarget::English));
}

#[test]
fn application_rules_take_precedence() {
    assert_eq!(target_for("chinese", true, false), Some(LanguageTarget::Chinese));
    assert_eq!(target_for("english", false, true), Some(LanguageTarget::English));
    assert_eq!(target_for("ignore", false, true), None);
    assert_eq!(ime_open_status_for_target(LanguageTarget::Chinese), 1);
    assert_eq!(ime_open_status_for_target(LanguageTarget::English), 0);
}

#[test]
fn adobe_non_editing_area_keeps_retrying_english_only_while_chinese() {
    assert!(should_enforce_adobe_english(true, false, true, None));
    assert!(!should_enforce_adobe_english(true, false, true, Some(Duration::from_millis(80))));
    assert!(should_enforce_adobe_english(true, false, true, Some(Duration::from_millis(120))));
    assert!(!should_enforce_adobe_english(true, true, true, None));
    assert!(!should_enforce_adobe_english(true, false, false, None));
}

#[test]
fn editable_entry_retries_only_during_short_focus_window() {
    assert!(should_retry_editable_chinese(
        LanguageTarget::Chinese,
        false,
        Some(Duration::from_millis(90)),
        Some(Duration::from_millis(80)),
    ));
    assert!(!should_retry_editable_chinese(
        LanguageTarget::Chinese,
        false,
        Some(Duration::from_millis(300)),
        Some(Duration::from_millis(80)),
    ));
    assert!(!should_retry_editable_chinese(
        LanguageTarget::Chinese,
        true,
        Some(Duration::from_millis(90)),
        Some(Duration::from_millis(80)),
    ));
    assert!(!should_retry_editable_chinese(
        LanguageTarget::English,
        false,
        Some(Duration::from_millis(90)),
        Some(Duration::from_millis(80)),
    ));
}

#[test]
fn double_click_toggle_uses_current_mode_and_skips_conflicting_apps() {
    assert_eq!(double_click_target(true), LanguageTarget::English);
    assert_eq!(double_click_target(false), LanguageTarget::Chinese);
    assert!(supports_double_click_toggle("Weixin.exe"));
    assert!(supports_double_click_toggle("WXWork.exe"));
    assert!(supports_double_click_toggle("chrome.exe"));
    assert!(!supports_double_click_toggle("Photoshop.exe"));
    assert!(!supports_double_click_toggle("Illustrator.exe"));
    assert!(!supports_double_click_toggle("et.exe"));
    assert!(!supports_double_click_toggle("WINWORD.EXE"));
    assert!(!supports_double_click_toggle("JianyingPro.exe"));
}

#[test]
fn sensitive_video_and_3d_apps_are_indicator_only_by_default() {
    assert_eq!(default_rule_for_process("Cinema 4D.exe"), "ignore");
    assert_eq!(default_rule_for_process("JianyingPro.exe"), "ignore");
    assert_eq!(default_rule_for_process("CapCut.exe"), "ignore");
    assert!(is_indicator_only_process("capcut.EXE"));
    assert_eq!(default_rule_for_process("Photoshop.exe"), "auto");
    assert_eq!(target_for("ignore", false, false), None);
    assert_eq!(target_for("ignore", false, true), None);
}

#[test]
fn editable_state_changes_context_for_custom_drawn_apps() {
    let non_input = context(false, false);
    let input = context(true, false);
    let mut double_clicked_input = input.clone();
    double_clicked_input.input_double_click = true;

    assert_ne!(SwitchContextKey::from(&non_input), SwitchContextKey::from(&input));
    assert_eq!(SwitchContextKey::from(&input), SwitchContextKey::from(&input));
    assert_eq!(SwitchContextKey::from(&input), SwitchContextKey::from(&double_clicked_input));
}

#[test]
fn same_input_refreshes_transient_double_click_event() {
    let mut candidate = Some(context(true, false));
    let mut double_clicked_input = context(true, false);
    double_clicked_input.input_double_click = true;

    let (changed, key) = refresh_candidate(&mut candidate, double_clicked_input);

    assert!(!changed);
    assert!(key.editable);
    assert!(candidate.as_ref().is_some_and(|current| current.input_double_click));
}

#[test]
fn the_first_context_is_a_change() {
    let mut candidate = None;
    let (changed, key) = refresh_candidate(&mut candidate, context(false, true));
    assert!(changed);
    assert_eq!(key.identity, "same-wechat-window");
    assert!(key.password);
    assert!(candidate.is_some());
}

#[test]
fn kinds_of_applications() {
    assert!(is_adobe_design_process("photoshop.exe"));
    assert!(!is_adobe_design_process("chrome.exe"));
    assert!(is_office_edit_process("excel.exe"));
    assert!(!is_office_edit_process("Photoshop.exe"));
}

#[test]
fn entering_an_input_switches_at_once() {
    let mut switcher = AutoSwitcher::new(true, at(0));
    let request = switcher.observe(field("edit", true), &surroundings(0, false, "notepad.exe"));
    assert_eq!(request, asks(LanguageTarget::Chinese));
}

#[test]
fn leaving_an_input_waits_for_the_focus_to_rest() {
    let mut switcher = AutoSwitcher::new(true, at(0));
    switcher.observe(field("edit", true), &surroundings(0, false, "notepad.exe"));
    assert_eq!(switcher.observe(field("menu", false), &surroundings(300, true, "notepad.exe")), None);
    assert_eq!(switcher.observe(field("menu", false), &surroundings(379, true, "notepad.exe")), None);
    assert_eq!(
        switcher.observe(field("menu", false), &surroundings(380, true, "notepad.exe")),
        asks(LanguageTarget::English)
    );
    assert_eq!(switcher.observe(field("menu", false), &surroundings(500, true, "notepad.exe")), None);
}

#[test]
fn a_choice_by_hand_stays_after_the_repetitions() {
    let mut switcher = AutoSwitcher::new(true, at(0));
    let o = |ms: u64| surroundings(ms, false, "notepad.exe");
    assert_eq!(switcher.observe(field("edit", true), &o(0)), asks(LanguageTarget::Chinese));
    assert_eq!(switcher.observe(field("edit", true), &o(69)), None);
    assert_eq!(switcher.observe(field("edit", true), &o(70)), asks(LanguageTarget::Chinese));
    assert_eq!(switcher.observe(field("edit", true), &o(139)), None);
    assert_eq!(switcher.observe(field("edit", true), &o(260)), asks(LanguageTarget::Chinese));
    assert_eq!(switcher.observe(field("edit", true), &o(331)), None);
    assert_eq!(switcher.observe(field("edit", true), &o(60_000)), None);
}

#[test]
fn an_input_that_is_in_chinese_is_not_repeated() {
    let mut switcher = AutoSwitcher::new(true, at(0));
    switcher.observe(field("edit", true), &surroundings(0, false, "notepad.exe"));
    assert_eq!(switcher.observe(field("edit", true), &surroundings(80, true, "notepad.exe")), None);
    assert_eq!(switcher.observe(field("edit", true), &surroundings(160, false, "notepad.exe")), None);
}

#[test]
fn a_double_click_toggles_and_holds() {
    let mut switcher = AutoSwitcher::new(true, at(0));
    switcher.observe(field("edit", true), &surroundings(0, false, "chrome.exe"));
    let mut clicked = field("edit", true);
    clicked.input_double_click = true;
    assert_eq!(
        switcher.observe(clicked, &surroundings(1000, true, "chrome.exe")),
        asks(LanguageTarget::English)
    );
    assert_eq!(switcher.observe(field("word", true), &surroundings(2500, false, "chrome.exe")), None);
    assert_eq!(
        switcher.observe(field("line", true), &surroundings(2501, false, "chrome.exe")),
        asks(LanguageTarget::Chinese)
    );
}

#[test]
fn a_double_click_in_a_sheet_toggles_nothing() {
    let mut switcher = AutoSwitcher::new(true, at(0));
    let mut clicked = field("cell", true);
    clicked.input_double_click = true;
    assert_eq!(
        switcher.observe(clicked, &surroundings(0, false, "EXCEL.EXE")),
        asks(LanguageTarget::Chinese)
    );
}

#[test]
fn passwords_get_english() {
    let mut switcher = AutoSwitcher::new(true, at(0));
    let mut password = field("secret", true);
    password.password = true;
    assert_eq!(
        switcher.observe(password, &surroundings(0, true, "chrome.exe")),
        asks(LanguageTarget::English)
    );
}

#[test]
fn nothing_happens_while_turned_off_and_switching_starts_over() {
    let mut switcher = AutoSwitcher::new(true, at(0));
    switcher.observe(field("edit", true), &surroundings(0, false, "notepad.exe"));
    let mut off = surroundings(400, false, "notepad.exe");
    off.enabled = false;
    assert_eq!(switcher.observe(field("edit", true), &off), None);
    assert_eq!(
        switcher.observe(field("edit", true), &surroundings(500, false, "notepad.exe")),
        asks(LanguageTarget::Chinese)
    );
}

#[test]
fn ignored_applications_are_not_switched() {
    let mut switcher = AutoSwitcher::new(true, at(0));
    let mut forced = surroundings(0, false, "Cinema 4D.exe");
    forced.app_rule = Some("chinese");
    assert_eq!(switcher.observe(field("view", true), &forced), None);
    let mut ignored = surroundings(10, false, "game.exe");
    ignored.app_rule = Some("ignore");
    assert_eq!(switcher.observe(field("game", true), &ignored), None);
}

#[test]
fn fixed_rules_go_before_the_context() {
    let mut switcher = AutoSwitcher::new(true, at(0));
    let mut english = surroundings(0, true, "WindowsTerminal.exe");
    english.app_rule = Some("english");
    assert_eq!(switcher.observe(field("shell", true), &english), asks(LanguageTarget::English));
}

#[test]
fn design_applications_are_switched_back_only_after_text() {
    let mut switcher = AutoSwitcher::new(true, at(0));
    let o = |ms: u64, chinese: bool| surroundings(ms, chinese, "Photoshop.exe");
    assert_eq!(switcher.observe(field("ps", false), &o(0, true)), None);
    assert_eq!(switcher.observe(field("ps", false), &o(500, true)), None);
    assert_eq!(switcher.observe(field("ps", true), &o(600, false)), asks(LanguageTarget::Chinese));
    assert_eq!(switcher.observe(field("ps", false), &o(900, true)), None);
    assert_eq!(switcher.observe(field("ps", false), &o(1000, true)), asks(LanguageTarget::English));
    assert_eq!(switcher.observe(field("ps", false), &o(1119, true)), None);
    assert_eq!(switcher.observe(field("ps", false), &o(1120, true)), asks(LanguageTarget::English));
    assert_eq!(switcher.observe(field("ps", false), &o(2000, false)), None);
}

#[test]
fn a_switch_asks_the_focused_window_and_the_one_in_front() {
    let request = SwitchRequest { focused_hwnd: 5, foreground_hwnd: 7, target: LanguageTarget::Chinese };
    let (mut switch, windows) = LanguageSwitch::begin(&request);
    assert_eq!(windows, vec![5, 7]);
    assert!(!switch.succeeded());
    assert!(switch.asked(false, 1, 2).is_empty());
    assert!(!switch.succeeded());
    assert_eq!(
        switch.asked(true, 8, 9),
        vec![
            ImeCommand { ime_hwnd: 8, command: IMC_SETOPENSTATUS, value: 1 },
            ImeCommand { ime_hwnd: 8, command: IMC_SETCONVERSIONMODE, value: 1 },
            ImeCommand { ime_hwnd: 9, command: IMC_SETOPENSTATUS, value: 1 },
            ImeCommand { ime_hwnd: 9, command: IMC_SETCONVERSIONMODE, value: 1 },
        ]
    );
    assert!(switch.succeeded());
}

#[test]
fn a_switch_to_english_closes_the_input_method() {
    let request = SwitchRequest { focused_hwnd: 5, foreground_hwnd: 5, target: LanguageTarget::English };
    let (mut switch, windows) = LanguageSwitch::begin(&request);
    assert_eq!(windows, vec![5]);
    assert_eq!(
        switch.asked(true, 8, 8),
        vec![ImeCommand { ime_hwnd: 8, command: IMC_SETOPENSTATUS, value: 0 }]
    );
    assert_eq!(
        switch.asked(true, 8, 0),
        vec![ImeCommand { ime_hwnd: 8, command: IMC_SETOPENSTATUS, value: 0 }]
    );
}

#[test]
fn windows_that_do_not_exist_are_not_asked() {
    let nowhere = SwitchRequest { focused_hwnd: 0, foreground_hwnd: 0, target: LanguageTarget::English };
    assert!(LanguageSwitch::begin(&nowhere).1.is_empty());
    let front = SwitchRequest { focused_hwnd: 0, foreground_hwnd: 3, target: LanguageTarget::English };
    assert_eq!(LanguageSwitch::begin(&front).1, vec![3]);
}

#[test]
fn each_language_has_its_layout() {
    assert_eq!(layout_for_target(LanguageTarget::Chinese, "00000804", "00000409"), "00000804");
    assert_eq!(layout_for_target(LanguageTarget::English, "00000804", "00000409"), "00000409");
}

#[test]
fn a_password_box_gets_english_right_after_a_double_click() {
    let mut switcher = AutoSwitcher::new(true, at(0));
    switcher.observe(field("name", true), &surroundings(0, false, "chrome.exe"));
    let mut clicked = field("name", true);
    clicked.input_double_click = true;
    assert_eq!(
        switcher.observe(clicked, &surroundings(1000, false, "chrome.exe")),
        asks(LanguageTarget::Chinese)
    );
    let mut password = field("secret", true);
    password.password = true;
    password.input_double_click = true;
    assert_eq!(
        switcher.observe(password, &surroundings(1200, true, "chrome.exe")),
        asks(LanguageTarget::English)
    );
}

#[test]
fn a_double_click_holds_over_many_checks_in_its_window() {
    let mut switcher = AutoSwitcher::new(true, at(0));
    let mut clicked = field("a", true);
    clicked.input_double_click = true;
    assert_eq!(
        switcher.observe(clicked, &surroundings(0, true, "chrome.exe")),
        asks(LanguageTarget::English)
    );
    for (i, name) in ["b", "a", "c", "b", "a"].iter().enumerate() {
        let ms = 300 * (i as u64 + 1);
        assert_eq!(
            switcher.observe(field(name, true), &surroundings(ms, false, "chrome.exe")),
            None
        );
    }
    assert_eq!(
        switcher.observe(field("d", true), &surroundings(1501, false, "chrome.exe")),
        asks(LanguageTarget::Chinese)
    );
}

#[test]
fn an_input_found_in_chinese_is_left_to_the_user_at_once() {
    let mut switcher = AutoSwitcher::new(true, at(0));
    let name = "chrome.exe";
    assert_eq!(
        switcher.observe(field("a", true), &surroundings(0, false, name)),
        asks(LanguageTarget::Chinese)
    );
    assert_eq!(switcher.observe(field("a", true), &surroundings(10, true, name)), None);
    for ms in [20, 200, 400, 800] {
        assert_eq!(switcher.observe(field("a", true), &surroundings(ms, false, name)), None);
    }
}

#[test]
fn text_edited_while_turned_off_does_not_count_in_a_design_application() {
    let mut switcher = AutoSwitcher::new(true, at(0));
    let name = "Photoshop.exe";
    let off = Surroundings { enabled: false, ..surroundings(0, true, name) };
    assert_eq!(switcher.observe(field("text", true), &off), None);
    assert_eq!(switcher.observe(field("canvas", false), &surroundings(100, true, name)), None);
    assert_eq!(switcher.observe(field("canvas", false), &surroundings(900, true, name)), None);
}
