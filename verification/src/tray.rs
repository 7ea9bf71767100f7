//! The tray icon, its menu, and the editor of application rules.

use vstd::prelude::*;

use crate::running_apps::RunningApp;

verus! {

/// A window is being destroyed.
pub const WM_DESTROY: u32 = 0x0002;

/// A window is asked to close.
pub const WM_CLOSE: u32 = 0x0010;

/// A menu entry or a control was chosen.
pub const WM_COMMAND: u32 = 0x0111;

/// A button is about to be painted.
pub const WM_CTLCOLORBTN: u32 = 0x0135;

/// A label is about to be painted.
pub const WM_CTLCOLORSTATIC: u32 = 0x0138;

/// The left mouse button was released.
pub const WM_LBUTTONUP: u32 = 0x0202;

/// The right mouse button was released.
pub const WM_RBUTTONUP: u32 = 0x0205;

/// Something happened at the tray icon.
pub const WM_TRAYICON: u32 = 0x0401;

pub const IDM_RESTART: u32 = 1001;

pub const IDM_CONFIG: u32 = 1002;

pub const IDM_ABOUT: u32 = 1003;

pub const IDM_EXIT: u32 = 1004;

pub const IDM_STARTUP: u32 = 1005;

pub const IDM_SMART_SWITCH: u32 = 1006;

pub const IDM_APP_RULES: u32 = 1007;

pub const IDC_APP_LIST: u32 = 2001;

pub const IDC_SAVE_RULE: u32 = 2003;

pub const IDC_REFRESH_APPS: u32 = 2004;

/// The control of the first rule; those of the others follow.
pub const IDC_RULE_FIRST: u32 = 2100;

/// What the editor shows of each rule.
pub const APP_RULE_LABELS: [&'static str; 5] = [
    "自动识别输入框",
    "固定中文",
    "固定英文",
    "删除自定义规则",
    "仅显示状态",
];

/// What the configuration holds for each rule.
pub const APP_RULE_MODES: [&'static str; 5] = ["auto", "chinese", "english", "remove", "ignore"];

/// Left edge, upper edge and width of the option of each rule in the editor.
pub const RULE_PLACES: [(i32, i32, i32); 5] = [
    (16, 372, 135),
    (151, 372, 105),
    (256, 372, 105),
    (16, 396, 120),
    (136, 396, 150),
];

/// The height of an option.
pub const RULE_HEIGHT: i32 = 24;

/// Two options of the editor share no pixel.
pub open spec fn options_are_apart(i: int, j: int) -> bool {
    let (left, top, width) = RULE_PLACES@[i];
    let (other_left, other_top, other_width) = RULE_PLACES@[j];
    ||| left + width <= other_left
    ||| other_left + other_width <= left
    ||| top + RULE_HEIGHT <= other_top
    ||| other_top + RULE_HEIGHT <= top
}

/// The options of the editor do not cover each other.
pub proof fn options_do_not_cover_each_other(i: int, j: int)
    requires
        0 <= i < RULE_PLACES@.len(),
        0 <= j < RULE_PLACES@.len(),
        i != j,
    ensures
        options_are_apart(i, j),
{
}

/// Whether switching is turned on.
pub struct SmartSwitch {
    enabled: bool,
}

impl SmartSwitch {
    /// Switching is turned on.
    pub closed spec fn is_on(self) -> bool {
        self.enabled
    }

    /// Switching is turned on until the stored state is known.
    pub fn new() -> (switch: SmartSwitch)
        ensures
            switch.is_on(),
    {
        SmartSwitch { enabled: true }
    }
}

/// The state that a stored number stands for.
pub open spec fn stored_state(value: u32) -> bool {
    value != 0
}

/// The number that is stored for a state.
pub open spec fn number_of(enabled: bool) -> u32 {
    if enabled {
        1
    } else {
        0
    }
}

/// The state that is taken over: the stored one, or the default where none is stored.
pub open spec fn initial_state(stored: Option<u32>, default_enabled: bool) -> bool {
    match stored {
        Some(value) => stored_state(value),
        None => default_enabled,
    }
}

/// The state after a change that was stored or not.
pub open spec fn state_after(before: bool, enabled: bool, stored: bool) -> bool {
    if stored {
        enabled
    } else {
        before
    }
}

/// Takes over the stored state, or the default where none is stored.
pub fn initialize_smart_switch(
    switch: &mut SmartSwitch,
    stored: Option<u32>,
    default_enabled: bool,
)
    ensures
        final(switch).is_on() == (match stored {
            Some(value) => stored_state(value),
            None => default_enabled,
        }),
        final(switch).is_on() == initial_state(stored, default_enabled),
{
    switch.enabled = match stored {
        Some(value) => value != 0,
        None => default_enabled,
    };
}

/// Whether switching is turned on.
pub fn smart_switch_enabled(switch: &SmartSwitch) -> (enabled: bool)
    ensures
        enabled == switch.is_on(),
{
    switch.enabled
}

/// The number to store for a state.
pub fn smart_switch_value(enabled: bool) -> (value: u32)
    ensures
        value == number_of(enabled),
{
    if enabled {
        1
    } else {
        0
    }
}

/// Turns switching on or off, once the state was stored. Where it could not be
/// stored, nothing changes.
pub fn set_smart_switch_enabled(switch: &mut SmartSwitch, enabled: bool, stored: bool)
    ensures
        final(switch).is_on() == (if stored {
            enabled
        } else {
            old(switch).is_on()
        }),
        final(switch).is_on() == state_after(old(switch).is_on(), enabled, stored),
{
    if stored {
        switch.enabled = enabled;
    }
}

/// The state is remembered: what was stored is what is taken over.
pub proof fn the_stored_state_is_remembered(enabled: bool)
    ensures
        stored_state(number_of(enabled)) == enabled,
{
}

/// What a message to the tray window asks for.
#[derive(Debug, Clone, Copy, PartialEq, Eq, Structural)]
pub enum TrayAction {
    ShowRules,
    ShowMenu,
    OpenConfig,
    ShowAbout,
    ToggleStartup,
    ToggleSmartSwitch,
    Restart,
    Quit,
    /// The message is dealt with and nothing is to be done.
    Ignore,
    /// The system deals with the message.
    PassOn,
}

/// What the menu entry `id` asks for.
pub open spec fn menu_action(id: u32) -> TrayAction {
    if id == IDM_EXIT {
        TrayAction::Quit
    } else if id == IDM_RESTART {
        TrayAction::Restart
    } else if id == IDM_CONFIG {
        TrayAction::OpenConfig
    } else if id == IDM_APP_RULES {
        TrayAction::ShowRules
    } else if id == IDM_ABOUT {
        TrayAction::ShowAbout
    } else if id == IDM_STARTUP {
        TrayAction::ToggleStartup
    } else if id == IDM_SMART_SWITCH {
        TrayAction::ToggleSmartSwitch
    } else {
        TrayAction::Ignore
    }
}

/// What a message to the tray window asks for. A command is named by the low
/// sixteen bits of its first parameter, and an event at the icon by the low
/// thirty-two bits of its second.
pub open spec fn tray_response(msg: u32, wparam: usize, lparam: isize) -> TrayAction {
    if msg == WM_TRAYICON {
        if lparam as u32 == WM_LBUTTONUP {
            TrayAction::ShowRules
        } else if lparam as u32 == WM_RBUTTONUP {
            TrayAction::ShowMenu
        } else {
            TrayAction::PassOn
        }
    } else if msg == WM_COMMAND {
        menu_action((wparam as int % 0x1_0000) as u32)
    } else if msg == WM_DESTROY {
        TrayAction::Quit
    } else {
        TrayAction::PassOn
    }
}

/// The number of the command that a first parameter names.
fn command_id(wparam: usize) -> (id: u32)
    ensures
        id == wparam as int % 0x1_0000,
{
    assert(wparam as u32 & 0xffff == wparam % 0x1_0000) by (bit_vector);
    wparam as u32 & 0xffff
}

/// What a message to the tray window asks for.
pub fn window_proc(msg: u32, wparam: usize, lparam: isize) -> (action: TrayAction)
    ensures
        action == tray_response(msg, wparam, lparam),
{
    if msg == WM_TRAYICON {
        let event: u32 = lparam as u32;
        if event == WM_LBUTTONUP {
            TrayAction::ShowRules
        } else if event == WM_RBUTTONUP {
            TrayAction::ShowMenu
        } else {
            TrayAction::PassOn
        }
    } else if msg == WM_COMMAND {
        let id: u32 = command_id(wparam);
        if id == IDM_EXIT {
            TrayAction::Quit
        } else if id == IDM_RESTART {
            TrayAction::Restart
        } else if id == IDM_CONFIG {
            TrayAction::OpenConfig
        } else if id == IDM_APP_RULES {
            TrayAction::ShowRules
        } else if id == IDM_ABOUT {
            TrayAction::ShowAbout
        } else if id == IDM_STARTUP {
            TrayAction::ToggleStartup
        } else if id == IDM_SMART_SWITCH {
            TrayAction::ToggleSmartSwitch
        } else {
            TrayAction::Ignore
        }
    } else if msg == WM_DESTROY {
        TrayAction::Quit
    } else {
        TrayAction::PassOn
    }
}

/// An item of the menu.
#[derive(Debug, Clone, Copy, PartialEq, Eq)]
pub enum MenuItem {
    Entry { id: u32, label: &'static str, checked: bool },
    Separator,
}

/// The menu, where switching and starting with the session are on or off.
pub open spec fn menu(smart_switch: bool, startup: bool) -> Seq<MenuItem> {
    seq![
        MenuItem::Entry { id: IDM_CONFIG, label: "编辑配置 (Config)", checked: false },
        MenuItem::Entry { id: IDM_APP_RULES, label: "应用规则 (Apps)", checked: false },
        MenuItem::Entry {
            id: IDM_SMART_SWITCH,
            label: "智能切换 (Smart)",
            checked: smart_switch,
        },
        MenuItem::Entry { id: IDM_STARTUP, label: "开机自启 (Startup)", checked: startup },
        MenuItem::Entry { id: IDM_RESTART, label: "重启程序 (Restart)", checked: false },
        MenuItem::Entry { id: IDM_ABOUT, label: "关于 (About)", checked: false },
        MenuItem::Separator,
        MenuItem::Entry { id: IDM_EXIT, label: "退出 (Exit)", checked: false },
    ]
}

/// The items of the menu, from top to bottom.
pub fn context_menu(smart_switch: bool, startup: bool) -> (items: Vec<MenuItem>)
    ensures
        items@ == menu(smart_switch, startup),
{
    let mut items: Vec<MenuItem> = Vec::new();
    items.push(MenuItem::Entry { id: IDM_CONFIG, label: "编辑配置 (Config)", checked: false });
    items.push(MenuItem::Entry { id: IDM_APP_RULES, label: "应用规则 (Apps)", checked: false });
    items.push(
        MenuItem::Entry {
            id: IDM_SMART_SWITCH,
            label: "智能切换 (Smart)",
            checked: smart_switch,
        },
    );
    items.push(MenuItem::Entry { id: IDM_STARTUP, label: "开机自启 (Startup)", checked: startup });
    items.push(MenuItem::Entry { id: IDM_RESTART, label: "重启程序 (Restart)", checked: false });
    items.push(MenuItem::Entry { id: IDM_ABOUT, label: "关于 (About)", checked: false });
    items.push(MenuItem::Separator);
    items.push(MenuItem::Entry { id: IDM_EXIT, label: "退出 (Exit)", checked: false });
    assert(items@ =~= menu(smart_switch, startup));
    items
}

/// Every entry of the menu does something.
pub proof fn every_entry_does_something(smart_switch: bool, startup: bool, i: int)
    requires
        0 <= i < menu(smart_switch, startup).len(),
    ensures
        menu(smart_switch, startup)[i] matches MenuItem::Entry { id, .. } ==> menu_action(id)
            != TrayAction::Ignore && tray_response(WM_COMMAND, id as usize, 0) == menu_action(id),
{
    let items = menu(smart_switch, startup);
    assert(items[0] is Entry && items[6] is Separator);
}

/// Keeps a second menu from opening while one is open: the menu handles messages
/// of its own, and a click may come among them.
pub struct MenuGuard {
    open: bool,
}

impl MenuGuard {
    /// A menu is open.
    pub closed spec fn is_open(self) -> bool {
        self.open
    }

    pub fn new() -> (guard: MenuGuard)
        ensures
            !guard.is_open(),
    {
        MenuGuard { open: false }
    }

    /// Whether the menu may open. From here on it is open.
    pub fn enter(&mut self) -> (may_open: bool)
        ensures
            may_open == !old(self).is_open(),
            final(self).is_open(),
    {
        let may_open = !self.open;
        self.open = true;
        may_open
    }

    /// The menu was closed, or could not be opened.
    pub fn leave(&mut self)
        ensures
            !final(self).is_open(),
    {
        self.open = false;
    }
}

/// What a message to the editor asks for.
#[derive(Debug, Clone, Copy, PartialEq, Eq, Structural)]
pub enum EditorAction {
    SaveRule,
    RefreshApps,
    /// The background of a control is that of the window.
    PaintBackground,
    Close,
    /// The window is gone, and what it used is to be given back.
    CleanUp,
    /// The message is dealt with and nothing is to be done.
    Ignore,
    /// The system deals with the message.
    PassOn,
}

/// What a message to the editor asks for. A command is named by the low sixteen
/// bits of its first parameter.
pub open spec fn editor_response(msg: u32, wparam: usize) -> EditorAction {
    if msg == WM_COMMAND {
        if wparam as int % 0x1_0000 == IDC_SAVE_RULE {
            EditorAction::SaveRule
        } else if wparam as int % 0x1_0000 == IDC_REFRESH_APPS {
            EditorAction::RefreshApps
        } else {
            EditorAction::Ignore
        }
    } else if msg == WM_CTLCOLORSTATIC || msg == WM_CTLCOLORBTN {
        EditorAction::PaintBackground
    } else if msg == WM_CLOSE {
        EditorAction::Close
    } else if msg == WM_DESTROY {
        EditorAction::CleanUp
    } else {
        EditorAction::PassOn
    }
}

/// What a message to the editor asks for.
pub fn app_rule_window_proc(msg: u32, wparam: usize) -> (action: EditorAction)
    ensures
        action == editor_response(msg, wparam),
{
    if msg == WM_COMMAND {
        let id: u32 = command_id(wparam);
        if id == IDC_SAVE_RULE {
            EditorAction::SaveRule
        } else if id == IDC_REFRESH_APPS {
            EditorAction::RefreshApps
        } else {
            EditorAction::Ignore
        }
    } else if msg == WM_CTLCOLORSTATIC || msg == WM_CTLCOLORBTN {
        EditorAction::PaintBackground
    } else if msg == WM_CLOSE {
        EditorAction::Close
    } else if msg == WM_DESTROY {
        EditorAction::CleanUp
    } else {
        EditorAction::PassOn
    }
}

/// Where something of the length `extent` begins in the middle of `screen`, or at
/// its edge where it does not fit.
pub open spec fn middle(screen: int, extent: int) -> int {
    if screen >= extent {
        (screen - extent) / 2
    } else {
        0
    }
}

/// Where a window of the length `extent` begins on a screen.
pub fn centered(screen: i32, extent: i32) -> (at: i32)
    requires
        i32::MIN <= screen - extent <= i32::MAX,
    ensures
        at == middle(screen as int, extent as int),
{
    let room: i32 = screen - extent;
    if room >= 0 {
        room / 2
    } else {
        0
    }
}

/// A radio button is chosen.
pub open spec fn is_checked(state: isize) -> bool {
    state == 1
}

/// The first radio button that is chosen, or the number of buttons.
pub open spec fn first_checked(states: Seq<isize>) -> nat
    decreases states.len(),
{
    if states.len() == 0 || is_checked(states[0]) {
        0
    } else {
        1 + first_checked(states.drop_first())
    }
}

/// The executable and the rule that are chosen in the editor, where both are. A
/// negative index is no choice.
pub open spec fn chosen(apps: Seq<RunningApp>, app_index: int, states: Seq<isize>) -> Option<
    (Seq<char>, nat),
> {
    if 0 <= app_index < apps.len() && first_checked(states) < states.len() {
        Some((apps[app_index].exe_name@, first_checked(states)))
    } else {
        None
    }
}

/// The executable and the rule that are chosen in the editor, given the index of
/// the chosen application and the states of the radio buttons.
pub fn selected_app_rule(
    apps: &Vec<RunningApp>,
    app_index: isize,
    states: &Vec<isize>,
) -> (selection: Option<(String, usize)>)
    ensures
        match selection {
            Some((app, rule)) => chosen(apps@, app_index as int, states@) == Some(
                (app@, rule as nat),
            ),
            None => chosen(apps@, app_index as int, states@) is None,
        },
{
    if app_index < 0 || app_index as usize >= apps.len() {
        return None;
    }
    let mut rule: usize = 0;
    assert(states@.skip(0) =~= states@);
    while rule < states.len()
        invariant
            rule <= states.len(),
            0 <= app_index < apps.len(),
            first_checked(states@) == rule + first_checked(states@.skip(rule as int)),
        decreases states.len() - rule,
    {
        if states[rule] == 1 {
            return Some((apps[app_index as usize].exe_name.clone(), rule));
        }
        assert(states@.skip(rule as int).drop_first() =~= states@.skip(rule + 1));
        rule += 1;
    }
    None
}

/// What the configuration holds for the rule with the index `rule`.
pub open spec fn mode_of(rule: int) -> &'static str {
    if 0 <= rule < APP_RULE_MODES@.len() {
        APP_RULE_MODES@[rule]
    } else {
        "auto"
    }
}

/// What the configuration holds for a rule of the editor.
pub fn rule_mode(rule: usize) -> (mode: &'static str)
    ensures
        mode@ == mode_of(rule as int)@,
{
    if rule < APP_RULE_MODES.len() {
        APP_RULE_MODES[rule]
    } else {
        "auto"
    }
}

/// The question that follows when a rule was saved.
pub fn saved_message(app: &str) -> (message: String)
    ensures
        message@ == "已保存 "@ + app@ + " 的规则。\n\n现在重启程序使配置生效吗？"@,
{
    let mut out = String::new();
    out.append("已保存 ");
    out.append(app);
    out.append(" 的规则。\n\n现在重启程序使配置生效吗？");
    assert(out@ =~= "已保存 "@ + app@ + " 的规则。\n\n现在重启程序使配置生效吗？"@);
    out
}

/// A path in quotes.
pub open spec fn in_quotes(path: Seq<char>) -> Seq<char> {
    seq!['"'] + path + seq!['"']
}

/// The command that starts the program at `exe_path`: the path in quotes.
pub fn startup_command(exe_path: &str) -> (command: String)
    ensures
        command@ == in_quotes(exe_path@),
{
    proof {
        reveal_strlit("\"");
    }
    assert("\""@ =~= seq!['"']);
    let mut out = String::new();
    out.append("\"");
    out.append(exe_path);
    out.append("\"");
    assert(out@ =~= seq!['"'] + exe_path@ + seq!['"']);
    out
}

} // verus!
