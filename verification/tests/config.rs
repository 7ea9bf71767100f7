use ime_indicator::config::{caret_dot, default_lines, mouse_dot, read_config, read_dot, DotConfig};
use ime_indicator::config_file::{join_lists, set_setting, setting};

fn lines(content: &str) -> Vec<String> {
    content.lines().map(str::to_string).collect()
}

fn text(words: &[&str]) -> Vec<String> {
    words.iter().map(|word| word.to_string()).collect()
}

const SAMPLE: &str = r#"
# settings
[caret]
enable = false
[auto_switch]
enable = false   # paused
chinese_klid = "00000404"
settle_ms = 120
app_rules = ["WindowsTerminal.exe=english", "Obsidian.exe=chinese", "game.exe=ignore"]
extra_input_apps = ["CustomEditor.exe"]
[mouse]
settle_ms = 7
"#;

#[test]
fn settings_are_read_from_their_section() {
    let config = read_config(&lines(SAMPLE));
    assert!(!config.enable);
    assert_eq!(config.chinese_klid, "00000404");
    assert_eq!(config.english_klid, "00000409");
    assert_eq!(config.settle_ms, 120);
    assert_eq!(config.app_rules.len(), 3);
    assert_eq!(config.extra_input_apps, text(&["CustomEditor.exe"]));
    assert_eq!(setting(&lines(SAMPLE), "mouse", "settle_ms"), Some("7".to_string()));
    assert_eq!(setting(&lines(SAMPLE), "mouse", "enable"), None);
    assert_eq!(setting(&lines(SAMPLE), "tray", "enable"), None);
}

#[test]
fn the_file_that_is_made_holds_the_usual_settings() {
    for config in [read_config(&default_lines()), read_config(&Vec::new())] {
        assert!(config.enable);
        assert_eq!(config.chinese_klid, "00000804");
        assert_eq!(config.english_klid, "00000409");
        assert_eq!(config.settle_ms, 80);
        assert!(config.app_rules.is_empty());
        assert!(config.extra_input_apps.is_empty());
    }
}

#[test]
fn values_that_cannot_be_read_are_as_usual() {
    let config = read_config(&lines(
        "[auto_switch]\nenable = yes\nsettle_ms = 18446744073709551616\nenglish_klid = 409",
    ));
    assert!(config.enable);
    assert_eq!(config.settle_ms, 80);
    assert_eq!(config.english_klid, "00000409");
    let largest = read_config(&lines("[auto_switch]\nsettle_ms=18446744073709551615\r"));
    assert_eq!(largest.settle_ms, u64::MAX);
    assert_eq!(read_config(&lines("[auto_switch]\nsettle_ms = 1x")).settle_ms, 80);
}

#[test]
fn rules_are_found_by_the_name_of_the_application() {
    let config = read_config(&lines(SAMPLE));
    assert_eq!(config.auto_switch_app_rule("windowsterminal.EXE"), Some("english".to_string()));
    assert_eq!(config.auto_switch_app_rule("game.exe"), Some("ignore".to_string()));
    assert_eq!(config.auto_switch_app_rule("chrome.exe"), None);
}

#[test]
fn choices_are_stored_and_read_back() {
    let mut file = lines(SAMPLE);
    let mut config = read_config(&file);
    config.update_application_setting("GAME.exe", "chinese");
    config.update_application_setting("eCloud.exe", "auto");
    config.update_application_setting("obsidian.exe", "remove");
    config.store(&mut file);
    let again = read_config(&file);
    assert_eq!(again.auto_switch_app_rule("game.exe"), Some("chinese".to_string()));
    assert_eq!(again.auto_switch_app_rule("eCloud.exe"), Some("auto".to_string()));
    assert_eq!(again.auto_switch_app_rule("Obsidian.exe"), None);
    assert_eq!(
        again.auto_switch_app_rule("WindowsTerminal.exe"),
        Some("english".to_string())
    );
    assert_eq!(again.extra_input_apps, text(&["CustomEditor.exe", "eCloud.exe"]));
    assert_eq!(again.settle_ms, 120);
    assert_eq!(setting(&file, "mouse", "settle_ms"), Some("7".to_string()));
    assert_eq!(file.len(), lines(SAMPLE).len());
}

#[test]
fn taking_a_rule_away_ends_the_recognition() {
    let mut config = read_config(&default_lines());
    config.update_application_setting("a.exe", "auto");
    config.update_application_setting("A.EXE", "auto");
    assert_eq!(config.extra_input_apps, text(&["a.exe"]));
    config.update_application_setting("a.exe", "remove");
    assert!(config.extra_input_apps.is_empty());
    assert_eq!(config.auto_switch_app_rule("a.exe"), None);
}

#[test]
fn settings_are_added_where_they_are_missing() {
    let mut file = text(&["[auto_switch]", "enable = true"]);
    set_setting(&mut file, "auto_switch", "settle_ms", "5");
    assert_eq!(file, text(&["[auto_switch]", "settle_ms = 5", "enable = true"]));
    set_setting(&mut file, "auto_switch", "settle_ms", "6");
    assert_eq!(file, text(&["[auto_switch]", "settle_ms = 6", "enable = true"]));
    set_setting(&mut file, "mouse", "size", "8");
    assert_eq!(file[3..].to_vec(), text(&["[mouse]", "size = 8"]));
}

#[test]
fn comments_are_no_settings() {
    let config = read_config(&lines(
        r#"
[auto_switch]  # what is switched
settle_ms = 5 # "6"
# enable = false
app_rules = ["C#.exe=english"]  # not "d.exe=chinese"
"#,
    ));
    assert_eq!(config.settle_ms, 5);
    assert!(config.enable);
    assert_eq!(config.app_rules, text(&["C#.exe=english"]));
    assert_eq!(config.auto_switch_app_rule("c#.exe"), Some("english".to_string()));
}

#[test]
fn lists_may_go_over_several_lines() {
    let content = r#"[auto_switch]
app_rules = [        # one for each
    "a.exe=english", # not "b.exe=ignore"
    "c.exe=chinese",
]
settle_ms = 9
[caret]
size = 12
"#;
    let mut file = lines(content);
    let mut config = read_config(&file);
    assert_eq!(config.app_rules, text(&["a.exe=english", "c.exe=chinese"]));
    assert_eq!(config.settle_ms, 9);
    assert_eq!(join_lists(&file).len(), 5);

    config.update_application_setting("a.exe", "ignore");
    config.store(&mut file);
    let again = read_config(&file);
    assert_eq!(again.app_rules, text(&["c.exe=chinese", "a.exe=ignore"]));
    assert_eq!(again.settle_ms, 9);
    assert_eq!(caret_dot(&file).size, 12);
    assert_eq!(join_lists(&file), file);
}

#[test]
fn an_unfinished_list_takes_the_rest_of_the_file() {
    let file = lines("[auto_switch]\napp_rules = [\n\"a.exe=auto\"\nsettle_ms = 9");
    let config = read_config(&file);
    assert_eq!(config.app_rules, text(&["a.exe=auto"]));
    assert_eq!(config.settle_ms, 80);
}

#[test]
fn dots_are_configured_in_their_sections() {
    let usual = caret_dot(&Vec::new());
    assert_eq!(caret_dot(&default_lines()), usual);
    assert_eq!(mouse_dot(&default_lines()), mouse_dot(&Vec::new()));
    assert_eq!(usual.size, 8);
    let file = lines(
        "[caret]\nenable = false\nsize = 10\ncolor_cn = 0x80ff7800 # half\ncolor_en = 255\n\
         offset_x = -3\noffset_y = -2147483648\n[mouse]\nshow_en = false\noffset_x = 2147483648\n\
         color_cn = 0x100000000",
    );
    assert_eq!(
        caret_dot(&file),
        DotConfig {
            enable: false,
            show_en: true,
            size: 10,
            color_cn: 0x80FF7800,
            color_en: 255,
            offset_x: -3,
            offset_y: i32::MIN,
        }
    );
    let mouse = mouse_dot(&file);
    assert!(!mouse.show_en);
    assert_eq!((mouse.offset_x, mouse.color_cn), (2, 0xC8FF7800));
    assert_eq!(read_dot(&file, "tray", &usual), usual);
}
