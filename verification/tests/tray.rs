use ime_indicator::running_apps::{
    enumerate_running_apps, is_app_window, name_or_stem, process_display_name, running_app,
    RunningApp,
};
use ime_indicator::single_instance::{acquire, release, InstanceMutex, MutexOutcome};
use ime_indicator::tray::{
    app_rule_window_proc, centered, context_menu, initialize_smart_switch, rule_mode,
    saved_message, selected_app_rule, set_smart_switch_enabled, smart_switch_enabled,
    smart_switch_value, startup_command, window_proc, EditorAction, MenuGuard, MenuItem,
    SmartSwitch, TrayAction, APP_RULE_LABELS, APP_RULE_MODES, IDC_REFRESH_APPS, IDC_SAVE_RULE,
    IDM_ABOUT, IDM_APP_RULES, IDM_CONFIG, IDM_EXIT, IDM_RESTART, IDM_SMART_SWITCH, IDM_STARTUP,
    WM_CLOSE, WM_COMMAND, WM_CTLCOLORBTN, WM_CTLCOLORSTATIC, WM_DESTROY, WM_LBUTTONUP,
    RULE_HEIGHT, RULE_PLACES, WM_RBUTTONUP, WM_TRAYICON,
};

#[test]
fn destructive_and_indicator_only_rules_have_matching_positions() {
    assert_eq!(APP_RULE_LABELS[3], "删除自定义规则");
    assert_eq!(APP_RULE_MODES[3], "remove");
    assert_eq!(APP_RULE_LABELS[4], "仅显示状态");
    assert_eq!(APP_RULE_MODES[4], "ignore");
}

#[test]
fn application_list_uses_only_the_executable_name() {
    assert_eq!(process_display_name("Photoshop.exe"), "Photoshop");
    assert_eq!(process_display_name("Tabbit Browser.exe"), "Tabbit Browser");
}

#[test]
fn extensionless_process_names_are_kept() {
    assert_eq!(process_display_name("微信"), "微信");
}

#[test]
fn only_the_last_extension_is_dropped() {
    assert_eq!(process_display_name("setup.v2.exe"), "setup.v2");
    assert_eq!(process_display_name(".hidden"), ".hidden");
    assert_eq!(process_display_name("name."), "name");
    assert_eq!(process_display_name("..."), "..");
}

#[test]
fn a_missing_or_empty_stem_falls_back_to_the_name() {
    assert_eq!(name_or_stem(None, "a.exe"), "a.exe");
    assert_eq!(name_or_stem(Some(String::new()), "a.exe"), "a.exe");
    assert_eq!(name_or_stem(Some("a".to_string()), "a.exe"), "a");
}

fn app(exe_name: &str, exe_path: &str) -> RunningApp {
    running_app(exe_name.to_string(), exe_path.to_string())
}

#[test]
fn each_application_is_listed_once_in_order() {
    let found = vec![
        app("Weixin.exe", "c"),
        app("chrome.exe", "first"),
        app("CHROME.EXE", "second"),
        app("Blender.exe", "b"),
        app("ÄRGER.exe", "u"),
        app("ärger.EXE", "v"),
    ];
    let listed = enumerate_running_apps(&found);
    let names: Vec<&str> = listed.iter().map(|a| a.display_name.as_str()).collect();
    assert_eq!(names, vec!["Blender", "chrome", "Weixin", "ÄRGER"]);
    assert_eq!(listed[1].exe_path, "first");
    assert_eq!(listed[3].exe_path, "u");
}

#[test]
fn applications_shown_alike_keep_their_order() {
    let found = vec![app("b.com", "1"), app("a.exe", "2"), app("B.exe", "3"), app("A.com", "4")];
    let listed = enumerate_running_apps(&found);
    let paths: Vec<&str> = listed.iter().map(|a| a.exe_path.as_str()).collect();
    assert_eq!(paths, vec!["2", "4", "1", "3"]);
}

#[test]
fn an_empty_desktop_lists_nothing() {
    assert!(enumerate_running_apps(&Vec::new()).is_empty());
}

#[test]
fn windows_of_other_processes_with_titles_are_listed() {
    assert!(is_app_window(true, 4, 9, 8));
    assert!(!is_app_window(false, 4, 9, 8));
    assert!(!is_app_window(true, 0, 9, 8));
    assert!(!is_app_window(true, -1, 9, 8));
    assert!(!is_app_window(true, 4, 0, 8));
    assert!(!is_app_window(true, 4, 8, 8));
}

#[test]
fn the_stored_state_goes_before_the_default() {
    let mut switch = SmartSwitch::new();
    assert!(smart_switch_enabled(&switch));
    initialize_smart_switch(&mut switch, None, false);
    assert!(!smart_switch_enabled(&switch));
    initialize_smart_switch(&mut switch, Some(7), false);
    assert!(smart_switch_enabled(&switch));
    initialize_smart_switch(&mut switch, Some(0), true);
    assert!(!smart_switch_enabled(&switch));
}

#[test]
fn a_state_that_was_not_stored_is_not_taken_over() {
    let mut switch = SmartSwitch::new();
    set_smart_switch_enabled(&mut switch, false, false);
    assert!(smart_switch_enabled(&switch));
    set_smart_switch_enabled(&mut switch, false, true);
    assert!(!smart_switch_enabled(&switch));
}

#[test]
fn what_was_stored_is_remembered() {
    for state in [true, false] {
        let mut switch = SmartSwitch::new();
        initialize_smart_switch(&mut switch, Some(smart_switch_value(state)), !state);
        assert_eq!(smart_switch_enabled(&switch), state);
    }
    assert_eq!(smart_switch_value(true), 1);
    assert_eq!(smart_switch_value(false), 0);
}

#[test]
fn clicks_at_the_icon() {
    assert_eq!(window_proc(WM_TRAYICON, 0, WM_LBUTTONUP as isize), TrayAction::ShowRules);
    assert_eq!(window_proc(WM_TRAYICON, 0, WM_RBUTTONUP as isize), TrayAction::ShowMenu);
    assert_eq!(window_proc(WM_TRAYICON, 0, 0x200), TrayAction::PassOn);
    assert_eq!(window_proc(0x0400, 0, WM_LBUTTONUP as isize), TrayAction::PassOn);
}

#[test]
fn commands_of_the_menu() {
    let command = |id: u32| window_proc(WM_COMMAND, id as usize, 0);
    assert_eq!(command(IDM_EXIT), TrayAction::Quit);
    assert_eq!(command(IDM_RESTART), TrayAction::Restart);
    assert_eq!(command(IDM_CONFIG), TrayAction::OpenConfig);
    assert_eq!(command(IDM_APP_RULES), TrayAction::ShowRules);
    assert_eq!(command(IDM_ABOUT), TrayAction::ShowAbout);
    assert_eq!(command(IDM_STARTUP), TrayAction::ToggleStartup);
    assert_eq!(command(IDM_SMART_SWITCH), TrayAction::ToggleSmartSwitch);
    assert_eq!(command(9), TrayAction::Ignore);
    assert_eq!(window_proc(WM_COMMAND, 0x0001_0000 + IDM_EXIT as usize, 0), TrayAction::Quit);
    assert_eq!(window_proc(WM_DESTROY, 0, 0), TrayAction::Quit);
}

#[test]
fn messages_of_the_editor() {
    assert_eq!(app_rule_window_proc(WM_COMMAND, IDC_SAVE_RULE as usize), EditorAction::SaveRule);
    assert_eq!(
        app_rule_window_proc(WM_COMMAND, 0x0002_0000 + IDC_REFRESH_APPS as usize),
        EditorAction::RefreshApps
    );
    assert_eq!(app_rule_window_proc(WM_COMMAND, 1), EditorAction::Ignore);
    assert_eq!(app_rule_window_proc(WM_CTLCOLORSTATIC, 1), EditorAction::PaintBackground);
    assert_eq!(app_rule_window_proc(WM_CTLCOLORBTN, 1), EditorAction::PaintBackground);
    assert_eq!(app_rule_window_proc(WM_CLOSE, 0), EditorAction::Close);
    assert_eq!(app_rule_window_proc(WM_DESTROY, 0), EditorAction::CleanUp);
    assert_eq!(app_rule_window_proc(WM_TRAYICON, 0), EditorAction::PassOn);
}

#[test]
fn the_menu_shows_what_is_on() {
    let items = context_menu(true, false);
    assert_eq!(items.len(), 8);
    assert_eq!(
        items[2],
        MenuItem::Entry { id: IDM_SMART_SWITCH, label: "智能切换 (Smart)", checked: true }
    );
    assert_eq!(
        items[3],
        MenuItem::Entry { id: IDM_STARTUP, label: "开机自启 (Startup)", checked: false }
    );
    assert_eq!(items[6], MenuItem::Separator);
    assert_eq!(items[7], MenuItem::Entry { id: IDM_EXIT, label: "退出 (Exit)", checked: false });
    for item in items {
        if let MenuItem::Entry { id, .. } = item {
            assert_ne!(window_proc(WM_COMMAND, id as usize, 0), TrayAction::Ignore);
        }
    }
}

#[test]
fn one_menu_at_a_time() {
    let mut guard = MenuGuard::new();
    assert!(guard.enter());
    assert!(!guard.enter());
    guard.leave();
    assert!(guard.enter());
}

#[test]
fn the_editor_opens_in_the_middle() {
    assert_eq!(centered(1920, 400), 760);
    assert_eq!(centered(1081, 535), 273);
    assert_eq!(centered(300, 400), 0);
}

#[test]
fn a_choice_needs_an_application_and_a_rule() {
    let apps = vec![app("a.exe", "1"), app("b.exe", "2")];
    assert_eq!(selected_app_rule(&apps, 1, &vec![0, 0, 1, 0, 1]), Some(("b.exe".to_string(), 2)));
    assert_eq!(selected_app_rule(&apps, -1, &vec![1]), None);
    assert_eq!(selected_app_rule(&apps, 2, &vec![1]), None);
    assert_eq!(selected_app_rule(&apps, 0, &vec![0, 2, 0]), None);
    assert_eq!(rule_mode(2), "english");
    assert_eq!(rule_mode(5), "auto");
}

#[test]
fn texts_of_the_tray() {
    assert_eq!(saved_message("a.exe"), "已保存 a.exe 的规则。\n\n现在重启程序使配置生效吗？");
    assert_eq!(startup_command("C:\\Program Files\\x.exe"), "\"C:\\Program Files\\x.exe\"");
}

#[test]
fn a_second_instance_is_refused() {
    let mut slot = InstanceMutex::new();
    assert_eq!(acquire(&mut slot, MutexOutcome::Created(5)), (true, None));
    assert_eq!(acquire(&mut slot, MutexOutcome::Existed(6)), (false, Some(6)));
    assert_eq!(release(&mut slot), Some(5));
    assert_eq!(release(&mut slot), None);
}

#[test]
fn a_missing_mutex_does_not_keep_the_program_from_starting() {
    let mut slot = InstanceMutex::new();
    assert_eq!(acquire(&mut slot, MutexOutcome::Failed), (true, None));
    assert_eq!(release(&mut slot), None);
}

#[test]
fn names_that_are_no_files_are_shown_as_they_are() {
    assert_eq!(process_display_name(""), "");
    assert_eq!(process_display_name(".."), "..");
    assert_eq!(app("", "x").display_name, "");
    assert_eq!(process_display_name("a/b.exe"), "b");
}

#[test]
fn rule_options_do_not_cover_each_other() {
    for (i, (left, top, width)) in RULE_PLACES.iter().enumerate() {
        for (other_left, other_top, other_width) in RULE_PLACES.iter().skip(i + 1) {
            assert!(
                left + width <= *other_left
                    || other_left + other_width <= *left
                    || top + RULE_HEIGHT <= *other_top
                    || other_top + RULE_HEIGHT <= *top
            );
        }
    }
}
