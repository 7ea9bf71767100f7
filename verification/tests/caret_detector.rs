use ime_indicator::caret_detector::{
    get_pos_via_gui_info, needs_element, next_source, should_preserve_transient_editable, CaretDetector,
    DetectionSource, FocusContext, FocusQuery, FrontWindow, GuiCaret, MsaaAnswer,
    DOCUMENT_CONTROL_TYPE, EDIT_CONTROL_TYPE,
};
use ime_indicator::clicks::{
    consume_click_samples, key_sample, take_click_samples, ClickQueue, ClickSample, PressWatcher,
    WatchedPresses,
};
use ime_indicator::clock::{Duration, Instant};
use ime_indicator::design_mode::{
    should_confirm_pending_design_text, should_enter_design_canvas_text, should_learn_adobe_cursor,
};
use ime_indicator::edit_mode::{
    window_class_is_edit_like, InputSample, KeyStates, PointerShape,
};
use ime_indicator::identity::{
    identity_of_element, identity_of_window, runtime_id_len, FocusedElement, ValueAccess,
};
use ime_indicator::processes::{
    image_name, process_is_indicator_only, process_matches, process_matches_any, CARET_COMPAT_APPS,
    CARET_FAST_PATH_APPS, DESIGN_TEXT_SHORTCUT_APPS, GUI_ONLY_CARET_APPS, INDICATOR_ONLY_APPS,
    OFFICE_EDIT_APPS, OFFICE_SPREADSHEET_APPS,
};

fn at(ms: u64) -> Instant {
    Instant { nanos: Duration::from_millis(1_000_000 + ms).nanos }
}

#[test]
fn ordinary_input_double_click_survives_separate_poll_cycles() {
    let started = at(0);
    let mut last_click = None;

    assert!(!consume_click_samples(
        &mut last_click,
        vec![ClickSample { at: started, process_id: 42, x: 100, y: 80 }]
    ));
    assert!(last_click.is_some());
    assert!(consume_click_samples(
        &mut last_click,
        vec![ClickSample {
            at: Instant { nanos: started.nanos + Duration::from_millis(180).nanos },
            process_id: 42,
            x: 103,
            y: 82,
        }]
    ));
    assert!(last_click.is_none());
}

#[test]
fn adobe_custom_canvas_cursors_do_not_imply_text_editing() {
    assert!(!should_enter_design_canvas_text(true, false, false, false));
    assert!(should_enter_design_canvas_text(false, true, false, false));
    assert!(!should_enter_design_canvas_text(false, true, false, true));
    assert!(should_enter_design_canvas_text(true, false, true, false));
    assert!(should_enter_design_canvas_text(false, true, true, false));
    assert!(!should_confirm_pending_design_text(Duration::from_millis(20), true));
    assert!(should_confirm_pending_design_text(Duration::from_millis(80), true));
    assert!(!should_confirm_pending_design_text(Duration::from_millis(80), false));
    assert!(should_learn_adobe_cursor(true, false));
    assert!(!should_learn_adobe_cursor(true, true));
    assert!(!should_learn_adobe_cursor(false, false));
}

#[test]
fn chat_caret_dropout_is_preserved_only_briefly_or_during_paste() {
    assert!(should_preserve_transient_editable(
        true,
        true,
        Some(Duration::from_millis(200)),
        None,
    ));
    assert!(should_preserve_transient_editable(
        true,
        false,
        Some(Duration::from_millis(700)),
        Some(Duration::from_millis(500)),
    ));
    assert!(!should_preserve_transient_editable(
        false,
        true,
        Some(Duration::from_millis(100)),
        Some(Duration::from_millis(100)),
    ));
    assert!(!should_preserve_transient_editable(
        true,
        true,
        Some(Duration::from_millis(1800)),
        None,
    ));
}

#[test]
fn wechat_uses_caret_fast_path() {
    assert!(process_matches("weixin.exe", &CARET_FAST_PATH_APPS));
    assert!(process_matches("WXWork.exe", &CARET_FAST_PATH_APPS));
    assert!(process_matches("WeCom.exe", &CARET_FAST_PATH_APPS));
    assert!(process_matches("SearchHost.exe", &CARET_FAST_PATH_APPS));
    assert!(process_matches("SearchApp.exe", &CARET_FAST_PATH_APPS));
}

#[test]
fn rich_text_apps_use_scoped_caret_fallback() {
    assert!(process_matches("chrome.exe", &CARET_COMPAT_APPS));
    assert!(process_matches("Tabbit Browser.exe", &CARET_COMPAT_APPS));
    assert!(process_matches("Feishu.exe", &CARET_COMPAT_APPS));
    assert!(process_matches("wps.exe", &CARET_COMPAT_APPS));
    assert!(process_matches("et.exe", &CARET_COMPAT_APPS));
    assert!(process_matches("wpp.exe", &CARET_COMPAT_APPS));
    assert!(!process_matches("Photoshop.exe", &CARET_COMPAT_APPS));
    assert!(!process_matches("Illustrator.exe", &CARET_COMPAT_APPS));
    assert!(!process_matches("Cinema 4D.exe", &CARET_COMPAT_APPS));
    assert!(!process_matches("eCloud.exe", &CARET_COMPAT_APPS));
    assert!(!process_matches("FlClash.exe", &CARET_COMPAT_APPS));
}

#[test]
fn adobe_canvas_apps_support_text_tool_shortcut() {
    assert!(process_matches("Photoshop.exe", &DESIGN_TEXT_SHORTCUT_APPS));
    assert!(process_matches("Illustrator.exe", &DESIGN_TEXT_SHORTCUT_APPS));
    assert!(!process_matches("Cinema 4D.exe", &DESIGN_TEXT_SHORTCUT_APPS));
    assert!(process_matches("Cinema 4D.exe", &INDICATOR_ONLY_APPS));
    assert!(process_matches("JianyingPro.exe", &INDICATOR_ONLY_APPS));
    assert!(process_matches("CapCut.exe", &INDICATOR_ONLY_APPS));
    assert!(process_matches("Photoshop.exe", &CARET_FAST_PATH_APPS));
    assert!(process_matches("Illustrator.exe", &CARET_FAST_PATH_APPS));
    assert!(process_matches("Cinema 4D.exe", &CARET_FAST_PATH_APPS));
    assert!(process_matches("Photoshop.exe", &GUI_ONLY_CARET_APPS));
    assert!(process_matches("Illustrator.exe", &GUI_ONLY_CARET_APPS));
}

#[test]
fn wps_and_microsoft_office_use_edit_mode_tracking() {
    for process in [
        "wps.exe",
        "et.exe",
        "wpp.exe",
        "WINWORD.EXE",
        "EXCEL.EXE",
        "POWERPNT.EXE",
    ] {
        assert!(process_matches(process, &OFFICE_EDIT_APPS));
        assert!(process_matches(process, &CARET_COMPAT_APPS));
    }
    assert!(process_matches("et.exe", &OFFICE_SPREADSHEET_APPS));
    assert!(process_matches("EXCEL.EXE", &OFFICE_SPREADSHEET_APPS));
    assert!(!process_matches("wps.exe", &OFFICE_SPREADSHEET_APPS));
}

#[test]
fn a_rule_may_leave_an_application_alone() {
    assert!(process_is_indicator_only("game.exe", Some("ignore")));
    assert!(!process_is_indicator_only("game.exe", Some("Ignore")));
    assert!(!process_is_indicator_only("game.exe", None));
    assert!(process_is_indicator_only("CAPCUT.exe", Some("chinese")));
    assert!(process_matches_any("customeditor.exe", &vec!["CustomEditor.exe".to_string()]));
    assert!(!process_matches_any("customeditor.exe", &Vec::new()));
}

fn click(ms: u64, process_id: u32, x: i32, y: i32) -> ClickSample {
    ClickSample { at: at(ms), process_id, x, y }
}

#[test]
fn double_clicks_are_close_in_time_and_place() {
    let pairs = [
        (click(500, 1, 8, -8), true),
        (click(501, 1, 0, 0), false),
        (click(100, 1, 9, 0), false),
        (click(100, 1, 0, -9), false),
        (click(100, 2, 0, 0), false),
    ];
    for (second, expected) in pairs {
        let mut last = None;
        assert_eq!(consume_click_samples(&mut last, vec![click(0, 1, 0, 0), second]), expected);
        assert_eq!(last.is_none(), expected);
    }
}

#[test]
fn a_third_click_is_not_a_second_double_click() {
    let mut last = None;
    assert!(consume_click_samples(&mut last, vec![click(0, 1, 0, 0), click(100, 1, 0, 0)]));
    assert!(!consume_click_samples(&mut last, vec![click(200, 1, 0, 0)]));
    assert!(consume_click_samples(&mut last, vec![click(300, 1, 0, 0)]));
}

#[test]
fn clicks_at_the_far_ends_of_the_screen_are_single() {
    let mut last = None;
    assert!(!consume_click_samples(
        &mut last,
        vec![click(0, 1, i32::MIN, i32::MIN), click(1, 1, i32::MAX, i32::MAX)]
    ));
}

#[test]
fn the_queue_keeps_the_latest_clicks_of_a_process() {
    let mut queue = ClickQueue::new();
    for i in 0..14u64 {
        queue.record(click(i * 10, if i == 5 { 2 } else { 1 }, i as i32, 0));
    }
    let taken = take_click_samples(&mut queue, 1, at(680));
    let xs: Vec<i32> = taken.iter().map(|c| c.x).collect();
    assert_eq!(xs, vec![3, 4, 6, 7, 8, 9, 10, 11, 12, 13]);
    assert!(take_click_samples(&mut queue, 1, at(680)).is_empty());
}

#[test]
fn presses_are_reported_once() {
    assert_eq!(key_sample(0x8001), (true, true));
    assert_eq!(key_sample(0x8000), (true, false));
    assert_eq!(key_sample(0x0001), (false, true));
    let mut watcher = PressWatcher::new();
    assert_eq!(watcher.poll(0x8000, 0), WatchedPresses { escape: true, left_click: false });
    assert_eq!(watcher.poll(0x8000, 0x8000), WatchedPresses { escape: false, left_click: true });
    assert_eq!(watcher.poll(0, 0x8000), WatchedPresses { escape: false, left_click: false });
    assert_eq!(watcher.poll(0x8000, 0), WatchedPresses { escape: true, left_click: false });
}

#[test]
fn edit_and_search_classes_are_recognised() {
    let class = |name: &str| window_class_is_edit_like(&Some(name.to_string()));
    assert!(class("Edit"));
    assert!(class("RICHEDIT50W"));
    assert!(class("SearchPane"));
    assert!(!class("OWL.Dock"));
    assert!(!class("edi"));
    assert!(!window_class_is_edit_like(&None));
}

#[test]
fn detections_have_names() {
    assert_eq!(DetectionSource::from_name("gui_info"), Some(DetectionSource::GuiInfo));
    assert_eq!(DetectionSource::from_name("msaa_caret"), Some(DetectionSource::MsaaCaret));
    assert_eq!(DetectionSource::from_name("GUI_INFO"), None);
}

#[test]
fn detections_are_tried_in_the_configured_order() {
    let methods: Vec<String> =
        ["msaa_caret", "uia_selection", "gui_info"].iter().map(|s| s.to_string()).collect();
    assert_eq!(
        CaretDetector::caret_sources("notepad.exe", None, &methods),
        vec![DetectionSource::MsaaCaret, DetectionSource::GuiInfo]
    );
    assert_eq!(
        CaretDetector::caret_sources("Photoshop.exe", None, &methods),
        vec![DetectionSource::GuiInfo]
    );
    assert!(CaretDetector::caret_sources("CapCut.exe", None, &methods).is_empty());
    assert!(CaretDetector::caret_sources("notepad.exe", Some("ignore"), &methods).is_empty());
}

#[test]
fn the_first_hit_is_the_caret() {
    let mut detector = CaretDetector::default();
    assert_eq!(detector.last_source, DetectionSource::NotFound);
    let attempts = vec![
        (DetectionSource::GuiInfo, None),
        (DetectionSource::MsaaCaret, Some((1, 2, 3))),
        (DetectionSource::GuiInfo, Some((4, 5, 6))),
    ];
    assert_eq!(detector.get_caret_pos(&attempts), Some((1, 2, 3)));
    assert_eq!(detector.last_source, DetectionSource::MsaaCaret);
    assert_eq!(detector.get_caret_pos(&vec![(DetectionSource::GuiInfo, None)]), None);
    assert_eq!(detector.last_source, DetectionSource::NotFound);
}

#[test]
fn the_line_is_as_high_as_the_font_at_least() {
    let caret = GuiCaret {
        owner_hwnd: 1,
        screen_x: 10,
        screen_y: 20,
        top: 5,
        bottom: 6,
        font_height: Some(16),
    };
    assert_eq!(get_pos_via_gui_info(&caret), Some((10, 20, 16)));
    let tall = GuiCaret { bottom: 25, ..caret };
    assert_eq!(get_pos_via_gui_info(&tall), Some((10, 20, 20)));
    let fontless = GuiCaret { font_height: None, ..caret };
    assert_eq!(get_pos_via_gui_info(&fontless), Some((10, 20, 1)));
    let nowhere = GuiCaret { owner_hwnd: 0, ..caret };
    assert_eq!(get_pos_via_gui_info(&nowhere), None);
}

#[test]
fn the_accessible_caret_is_at_the_end_of_the_selection() {
    let mut detector = CaretDetector::new();
    let selection = MsaaAnswer::Location { x: 100, y: 50, width: 30, height: 18 };
    assert_eq!(detector.get_pos_via_msaa_caret(selection), Some((130, 50, 18)));
    assert_eq!(detector.last_uia_error, "");
    let left_edge = MsaaAnswer::Location { x: 0, y: 50, width: 1, height: 18 };
    assert_eq!(detector.get_pos_via_msaa_caret(left_edge), Some((1, 50, 18)));
}

#[test]
fn failures_of_the_accessible_caret_are_noted() {
    let mut detector = CaretDetector::new();
    for answer in [
        MsaaAnswer::NoWindow,
        MsaaAnswer::Refused(0x80004005),
        MsaaAnswer::NoObject,
        MsaaAnswer::Location { x: 0, y: 0, width: 5, height: 5 },
        MsaaAnswer::NoLocation(0xA),
    ] {
        assert_eq!(detector.get_pos_via_msaa_caret(answer), None);
    }
    assert_eq!(
        detector.last_uia_error,
        "MSAA:NoHwnd | MSAA:Err:80004005 | MSAA:NoAcc | MSAA:Zero | MSAA:Loc:A"
    );
}

fn element(control_type: i32) -> FocusedElement {
    FocusedElement {
        control_type,
        password: false,
        value: ValueAccess::NoValue,
        native_hwnd: 7,
        runtime_id: Some(vec![42, -1, 0]),
        automation_id: "box".to_string(),
        left: 1,
        top: -2,
        right: 30,
        bottom: 40,
    }
}

#[test]
fn identities_are_made_of_handles_and_identifiers() {
    assert_eq!(identity_of_window(12, 0), "12:0");
    assert_eq!(identity_of_element(12, &element(50004)), "12:7:50004:[42, -1, 0]");
    let mut anonymous = element(-3);
    anonymous.runtime_id = None;
    assert_eq!(identity_of_element(12, &anonymous), "12:7:-3:box:1:-2:30:40");
    let mut empty = element(0);
    empty.runtime_id = Some(Vec::new());
    assert_eq!(identity_of_element(usize::MAX, &empty), format!("{}:7:0:[]", usize::MAX));
}

#[test]
fn identities_tell_elements_apart() {
    let mut other = element(50004);
    other.runtime_id = Some(vec![42, -10]);
    assert_ne!(identity_of_element(12, &element(50004)), identity_of_element(12, &other));
    assert_ne!(identity_of_window(1, 23), identity_of_window(12, 3));
}

#[test]
fn runtime_identifiers_have_a_length() {
    assert_eq!(runtime_id_len(0, 2), Some(3));
    assert_eq!(runtime_id_len(1, 1), Some(1));
    assert_eq!(runtime_id_len(0, -1), None);
}

#[test]
fn without_a_reported_focus_the_window_itself_is_focused() {
    assert_eq!(FrontWindow::new(5, Some(6), 1).focused_hwnd, 6);
    assert_eq!(FrontWindow::new(5, Some(0), 1).focused_hwnd, 5);
    assert_eq!(FrontWindow::new(5, None, 1).focused_hwnd, 5);
}

const NO_KEYS: KeyStates = KeyStates { t: 0, b: 0, escape: 0, enter: 0, left: 0, v: 0, ctrl: 0 };

const PRESSED: u16 = 0x0001;

fn idle(ms: u64) -> InputSample {
    InputSample {
        now: at(ms),
        keys: NO_KEYS,
        escape_latched: false,
        pointer: Some((300, 300)),
        shape: PointerShape { handle: Some(77), is_standard_arrow: false, is_text: false },
        focused_class: None,
        caret_class: None,
    }
}

struct Desk {
    detector: CaretDetector,
    queue: ClickQueue,
    extra: Vec<String>,
}

impl Desk {
    fn new() -> Desk {
        Desk { detector: CaretDetector::new(), queue: ClickQueue::new(), extra: Vec::new() }
    }

    fn check(
        &mut self,
        process_name: &str,
        has_caret: bool,
        element: Option<&FocusedElement>,
        sample: &InputSample,
    ) -> FocusContext {
        let query = FocusQuery {
            window: FrontWindow { foreground_hwnd: 3, focused_hwnd: 4, process_id: 9 },
            process_name,
            app_rule: None,
            has_caret,
            element,
            extra_input_apps: &self.extra,
        };
        self.detector.focus_context(&mut self.queue, &query, sample)
    }

    fn editable(&mut self, process_name: &str, has_caret: bool, sample: &InputSample) -> bool {
        self.check(process_name, has_caret, None, sample).editable
    }
}

#[test]
fn elements_are_queried_off_the_fast_path_only() {
    assert!(needs_element("notepad.exe", None));
    assert!(!needs_element("Weixin.exe", None));
    assert!(!needs_element("notepad.exe", Some("ignore")));
}

#[test]
fn applications_that_only_show_the_state_take_no_text() {
    let mut desk = Desk::new();
    desk.queue.record(click(0, 9, 1, 1));
    let context = desk.check("CapCut.exe", true, None, &idle(1));
    assert_eq!(context.identity, "3:4");
    assert!(!context.editable && !context.input_double_click);
    assert_eq!(take_click_samples(&mut desk.queue, 9, at(1)).len(), 1);
}

#[test]
fn edit_controls_take_text_unless_they_are_readonly() {
    let mut desk = Desk::new();
    let mut edit = element(EDIT_CONTROL_TYPE);
    assert!(desk.check("notepad.exe", false, Some(&edit), &idle(0)).editable);
    edit.value = ValueAccess::ReadOnly;
    assert!(!desk.check("notepad.exe", true, Some(&edit), &idle(1)).editable);
    edit.password = true;
    let context = desk.check("notepad.exe", false, Some(&edit), &idle(2));
    assert!(context.editable && context.password);
    assert_eq!(context.identity, "3:7:50004:[42, -1, 0]");
}

#[test]
fn documents_take_text_when_they_can_be_written() {
    let mut desk = Desk::new();
    let mut page = element(DOCUMENT_CONTROL_TYPE);
    page.value = ValueAccess::ReadOnly;
    let context = desk.check("chrome.exe", true, Some(&page), &idle(0));
    assert!(!context.editable && context.readonly_document);
    page.value = ValueAccess::Writable;
    let context = desk.check("chrome.exe", false, Some(&page), &idle(1));
    assert!(context.editable && !context.readonly_document);
    page.value = ValueAccess::NoValue;
    assert!(desk.check("chrome.exe", true, Some(&page), &idle(2)).editable);
    assert!(!desk.check("chrome.exe", false, Some(&page), &idle(3)).editable);
    assert!(!desk.check("eCloud.exe", true, Some(&page), &idle(4)).editable);
}

#[test]
fn a_stray_caret_counts_where_it_is_configured() {
    let mut desk = Desk::new();
    let custom = element(50025);
    assert!(!desk.check("eCloud.exe", true, Some(&custom), &idle(0)).editable);
    desk.extra.push("ecloud.EXE".to_string());
    assert!(desk.check("eCloud.exe", true, Some(&custom), &idle(1)).editable);
    assert!(desk.check("Feishu.exe", true, Some(&custom), &idle(2)).editable);
    assert!(desk.check("FlClash.exe", true, None, &idle(3)).editable);
}

#[test]
fn a_chat_keeps_its_input_through_a_dropout() {
    let mut desk = Desk::new();
    assert!(desk.editable("Weixin.exe", true, &idle(0)));
    assert!(desk.editable("Weixin.exe", false, &idle(500)));
    assert!(!desk.editable("Weixin.exe", false, &idle(501)));
}

#[test]
fn a_chat_keeps_its_input_through_a_paste() {
    let mut desk = Desk::new();
    assert!(desk.editable("WXWork.exe", true, &idle(0)));
    let mut paste = idle(200);
    paste.keys.ctrl = 0x8000;
    paste.keys.v = PRESSED;
    assert!(desk.editable("WXWork.exe", true, &paste));
    assert!(desk.editable("WXWork.exe", false, &idle(3200)));
    assert!(!desk.editable("WXWork.exe", false, &idle(3201)));
}

#[test]
fn a_click_with_a_text_cursor_stands_in_for_the_caret_of_a_chat() {
    let mut desk = Desk::new();
    let mut clicked = idle(0);
    clicked.keys.left = PRESSED;
    clicked.shape.is_text = true;
    let context = desk.check("Weixin.exe", false, None, &clicked);
    assert!(context.editable && context.force_mouse_indicator);
    assert!(desk.editable("Weixin.exe", false, &idle(600)));
    assert!(!desk.editable("Weixin.exe", false, &idle(1101)));
}

#[test]
fn the_text_tool_starts_editing_with_a_click() {
    let mut desk = Desk::new();
    let mut tool = idle(0);
    tool.keys.t = PRESSED;
    assert!(!desk.editable("Photoshop.exe", false, &tool));
    let mut clicked = idle(2500);
    clicked.keys.left = PRESSED;
    assert!(desk.editable("Photoshop.exe", false, &clicked));
    assert!(desk.editable("Photoshop.exe", false, &idle(9000)));
    let mut escape = idle(9100);
    escape.escape_latched = true;
    assert!(!desk.editable("Photoshop.exe", false, &escape));
    assert!(!desk.editable("Photoshop.exe", true, &idle(9200)));
}

#[test]
fn the_text_tool_is_laid_down_after_a_while() {
    let mut desk = Desk::new();
    let mut tool = idle(0);
    tool.keys.t = PRESSED;
    desk.editable("Illustrator.exe", false, &tool);
    let mut late = idle(2501);
    late.keys.left = PRESSED;
    late.shape.handle = Some(78);
    assert!(!desk.editable("Illustrator.exe", false, &late));
}

#[test]
fn a_click_on_the_arrow_ends_design_text() {
    let mut desk = Desk::new();
    let mut tool = idle(0);
    tool.keys.t = PRESSED;
    desk.editable("Photoshop.exe", false, &tool);
    let mut clicked = idle(100);
    clicked.keys.left = PRESSED;
    assert!(desk.editable("Photoshop.exe", false, &clicked));
    let mut arrow = idle(1000);
    arrow.keys.left = PRESSED;
    arrow.shape = PointerShape { handle: Some(1), is_standard_arrow: true, is_text: false };
    assert!(!desk.editable("Photoshop.exe", false, &arrow));
}

#[test]
fn a_double_click_on_design_text_is_confirmed_by_the_cursor() {
    let mut desk = Desk::new();
    let arrow = PointerShape { handle: Some(1), is_standard_arrow: true, is_text: false };
    for ms in [0, 100] {
        let mut clicked = idle(ms);
        clicked.keys.left = PRESSED;
        clicked.shape = arrow;
        let context = desk.check("Photoshop.exe", false, None, &clicked);
        assert!(!context.editable);
        assert_eq!(context.input_double_click, ms == 100);
    }
    assert!(!desk.editable("Photoshop.exe", false, &idle(139)));
    assert!(desk.editable("Photoshop.exe", false, &idle(140)));
}

#[test]
fn leaving_a_design_application_forgets_its_text() {
    let mut desk = Desk::new();
    let mut tool = idle(0);
    tool.keys.t = PRESSED;
    desk.editable("Photoshop.exe", false, &tool);
    let mut clicked = idle(100);
    clicked.keys.left = PRESSED;
    assert!(desk.editable("Photoshop.exe", false, &clicked));
    assert!(!desk.editable("explorer.exe", false, &idle(200)));
    assert!(!desk.editable("Photoshop.exe", false, &idle(300)));
}

#[test]
fn native_name_boxes_take_text_until_enter() {
    let mut desk = Desk::new();
    let mut boxed = idle(0);
    boxed.focused_class = Some("Edit".to_string());
    assert!(desk.editable("Photoshop.exe", true, &boxed));
    let mut enter = idle(100);
    enter.keys.enter = PRESSED;
    enter.focused_class = Some("Edit".to_string());
    assert!(!desk.editable("Photoshop.exe", true, &enter));
}

#[test]
fn sheets_are_edited_after_a_double_click() {
    let mut desk = Desk::new();
    let press = |ms: u64| {
        let mut clicked = idle(ms);
        clicked.keys.left = PRESSED;
        clicked
    };
    assert!(!desk.editable("EXCEL.EXE", true, &press(0)));
    assert!(desk.editable("EXCEL.EXE", true, &press(200)));
    let mut enter = idle(300);
    enter.keys.enter = PRESSED;
    assert!(!desk.editable("EXCEL.EXE", true, &enter));
    assert!(!desk.editable("EXCEL.EXE", true, &idle(400)));
    assert!(!desk.editable("EXCEL.EXE", true, &idle(5000)));
}

#[test]
fn documents_go_on_after_enter() {
    let mut desk = Desk::new();
    assert!(desk.editable("WINWORD.EXE", true, &idle(0)));
    let mut enter = idle(100);
    enter.keys.enter = PRESSED;
    assert!(desk.editable("WINWORD.EXE", true, &enter));
    let mut escape = idle(200);
    escape.keys.escape = 0x8000;
    assert!(!desk.editable("WINWORD.EXE", true, &escape));
}

#[test]
fn ordinary_inputs_report_double_clicks() {
    let mut desk = Desk::new();
    desk.queue.record(click(0, 9, 5, 5));
    assert!(!desk.check("notepad.exe", true, None, &idle(50)).input_double_click);
    desk.queue.record(click(300, 9, 6, 6));
    assert!(desk.check("notepad.exe", true, None, &idle(350)).input_double_click);
    assert!(!desk.check("notepad.exe", true, None, &idle(400)).input_double_click);
}

#[test]
fn a_document_whose_query_failed_is_not_readonly() {
    let mut desk = Desk::new();
    let mut page = element(DOCUMENT_CONTROL_TYPE);
    page.value = ValueAccess::Unknown;
    let context = desk.check("notepad.exe", true, Some(&page), &idle(0));
    assert!(!context.editable && !context.readonly_document);
    assert!(desk.check("chrome.exe", true, Some(&page), &idle(1)).editable);
    page.value = ValueAccess::NoValue;
    assert!(desk.check("notepad.exe", true, Some(&page), &idle(2)).readonly_document);
}

#[test]
fn nothing_is_tried_after_the_caret_was_found() {
    let sources = vec![DetectionSource::GuiInfo, DetectionSource::MsaaCaret];
    let mut attempts = Vec::new();
    assert_eq!(next_source(&sources, &attempts), Some(DetectionSource::GuiInfo));
    attempts.push((DetectionSource::GuiInfo, None));
    assert_eq!(next_source(&sources, &attempts), Some(DetectionSource::MsaaCaret));
    attempts.push((DetectionSource::MsaaCaret, None));
    assert_eq!(next_source(&sources, &attempts), None);
    let hit = vec![(DetectionSource::GuiInfo, Some((1, 2, 3)))];
    assert_eq!(next_source(&sources, &hit), None);
}

#[test]
fn keeping_an_input_does_not_renew_its_time() {
    let mut desk = Desk::new();
    assert!(desk.editable("Weixin.exe", true, &idle(0)));
    for ms in [100, 200, 300, 400, 500] {
        assert!(desk.editable("Weixin.exe", false, &idle(ms)));
    }
    assert!(!desk.editable("Weixin.exe", false, &idle(600)));
}

#[test]
fn executables_are_named_by_the_last_component() {
    let name = |path: &str| image_name(path);
    assert_eq!(name("/opt/Tencent/Weixin.exe"), Some("Weixin.exe".to_string()));
    assert_eq!(name("tools/a.b.exe"), Some("a.b.exe".to_string()));
    assert_eq!(name("微信.exe"), Some("微信.exe".to_string()));
    assert_eq!(name("/opt/a.exe/"), Some("a.exe".to_string()));
    assert_eq!(name("/opt/a.exe/./."), Some("a.exe".to_string()));
    assert_eq!(name("/opt/.."), None);
    assert_eq!(name("./."), None);
    assert_eq!(name("/"), None);
    assert_eq!(name(""), None);
}

#[test]
fn executables_are_named_on_drives_and_shares() {
    let name = |path: &str| image_name(path);
    let weixin = Some("Weixin.exe".to_string());
    for path in [
        r"C:\Program Files\Tencent\Weixin.exe",
        r"c:\Weixin.exe",
        "C:/Tencent/Weixin.exe",
        "C:Weixin.exe",
        r"C:\\Weixin.exe",
        r"C:\Weixin.exe\.",
        r"\\server\share\Weixin.exe",
        r"\\server\share\tools\Weixin.exe",
        "//server/share/Weixin.exe",
        r"\\?\C:\Tencent\Weixin.exe",
        r"\Tencent\Weixin.exe",
        r"tools\Weixin.exe\",
    ] {
        assert_eq!(name(path), weixin, "{path}");
    }
    assert_eq!(name(r"C:\a.txt:b.exe"), Some("a.txt:b.exe".to_string()));
    assert_eq!(name(r"C:D:x"), Some("D:x".to_string()));
    assert_eq!(name(r"\\server"), Some("server".to_string()));
    for path in [r"C:\", "C:", r"C:\tools\..", r"\\server\share", r"\\server\share\", r"\"] {
        assert_eq!(name(path), None, "{path}");
    }
}

#[test]
fn a_lost_caret_is_bridged_in_chats_only() {
    let mut detector = CaretDetector::new();
    let window = FrontWindow { foreground_hwnd: 3, focused_hwnd: 4, process_id: 9 };
    let other = FrontWindow { foreground_hwnd: 5, ..window };
    assert!(!detector.stabilize_transient_editable("Weixin.exe", window, at(0), false));
    assert!(detector.stabilize_transient_editable("Weixin.exe", window, at(0), true));
    assert!(detector.stabilize_transient_editable("Weixin.exe", window, at(300), false));
    assert!(!detector.stabilize_transient_editable("Weixin.exe", other, at(300), false));
    assert!(!detector.stabilize_transient_editable("notepad.exe", window, at(300), false));
    assert!(!detector.stabilize_transient_editable("Weixin.exe", window, at(3501), false));
    assert!(detector.stabilize_transient_editable("notepad.exe", window, at(4000), true));
    assert!(!detector.stabilize_transient_editable("notepad.exe", window, at(4001), false));
}
