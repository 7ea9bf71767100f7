//! What holds of the dot, the tray and the editor of rules.

use vstd::prelude::*;

use crate::overlay;
use crate::overlay::OverlayModel;
use crate::running_apps;
use crate::running_apps::RunningApp;
use crate::tray;
use crate::tray::{MenuItem, TrayAction};

verus! {

/// The dot is centred at the caret, below it, moved by the offset: its middle is there up
/// to half a pixel, and exactly so where its size is even.
pub proof fn the_dot_is_centred_below_the_caret(
    m: OverlayModel,
    x: i32,
    y: i32,
    is_chinese: bool,
    caret_h: i32,
)
    requires
        overlay::placeable(m, x, y, caret_h),
    ensures
        ({
            let dot = overlay::dot(m, x, y, is_chinese, caret_h);
            &&& -1 <= 2 * dot.x + m.size - 2 * (x + m.offset_x) <= 1
            &&& -1 <= 2 * dot.y + m.size - 2 * (y + caret_h + m.offset_y) <= 1
            &&& m.size >= 0 ==> 2 * dot.x + m.size >= 2 * (x + m.offset_x) && 2 * dot.y + m.size
                >= 2 * (y + caret_h + m.offset_y)
            &&& m.size <= 0 ==> 2 * dot.x + m.size <= 2 * (x + m.offset_x) && 2 * dot.y + m.size
                <= 2 * (y + caret_h + m.offset_y)
            &&& m.size as int % 2 == 0 ==> 2 * dot.x + m.size == 2 * (x + m.offset_x) && 2 * dot.y
                + m.size == 2 * (y + caret_h + m.offset_y)
            &&& dot.size == m.size
        }),
{
}

/// The colour tells the mode.
pub proof fn the_colour_tells_the_mode(m: OverlayModel, x: i32, y: i32, caret_h: i32)
    ensures
        overlay::dot(m, x, y, true, caret_h).color == m.color_cn,
        overlay::dot(m, x, y, false, caret_h).color == m.color_en,
{
}

/// A dot that is there already is not drawn again, and one that moved or changed its
/// colour is.
pub proof fn a_dot_is_drawn_when_it_changes(
    m: OverlayModel,
    x: i32,
    y: i32,
    is_chinese: bool,
    caret_h: i32,
    next_x: i32,
    next_y: i32,
    next_chinese: bool,
    next_h: i32,
)
    ensures
        ({
            let first = overlay::dot(m, x, y, is_chinese, caret_h);
            let next = overlay::dot(m, next_x, next_y, next_chinese, next_h);
            let after = overlay::updated(m, x, y, is_chinese, caret_h).0;
            let drawn = overlay::updated(after, next_x, next_y, next_chinese, next_h).1;
            &&& m.last is None ==> overlay::updated(m, x, y, is_chinese, caret_h).1 == Some(first)
            &&& drawn is None <==> next.x == first.x && next.y == first.y && next_chinese
                == is_chinese
            &&& drawn is Some ==> drawn == Some(next)
        }),
{
}

/// Drawing changes nothing but what was drawn last.
pub proof fn drawing_keeps_the_settings_of_a_dot(
    m: OverlayModel,
    x: i32,
    y: i32,
    is_chinese: bool,
    caret_h: i32,
)
    ensures
        overlay::updated(m, x, y, is_chinese, caret_h).0 == (OverlayModel {
            last: Some(
                (
                    overlay::dot(m, x, y, is_chinese, caret_h).x,
                    overlay::dot(m, x, y, is_chinese, caret_h).y,
                    is_chinese,
                ),
            ),
            ..m
        }),
{
}

/// A left click on the tray icon shows the rules, and a right click the menu.
pub proof fn clicks_on_the_icon(wparam: usize)
    ensures
        tray::tray_response(0x0401, wparam, 0x0202) is ShowRules,
        tray::tray_response(0x0401, wparam, 0x0205) is ShowMenu,
{
    assert(0x0202isize as u32 == 0x0202u32) by (bit_vector);
    assert(0x0205isize as u32 == 0x0205u32) by (bit_vector);
}

/// What the entries of the menu ask for, whatever stands in the upper bits of the
/// parameter. The end of the window ends the program, and other messages are passed on.
pub proof fn commands_of_the_menu(id: usize, above: usize, lparam: isize)
    requires
        id < 0x1_0000,
        id + above * 0x1_0000 <= usize::MAX,
    ensures
        ({
            let asked = tray::tray_response(0x0111, (id + above * 0x1_0000) as usize, lparam);
            &&& asked is Restart <==> id == 1001
            &&& asked is OpenConfig <==> id == 1002
            &&& asked is ShowAbout <==> id == 1003
            &&& asked is Quit <==> id == 1004
            &&& asked is ToggleStartup <==> id == 1005
            &&& asked is ToggleSmartSwitch <==> id == 1006
            &&& asked is ShowRules <==> id == 1007
            &&& asked is Ignore <==> !(1001 <= id <= 1007)
        }),
{
}

/// The end of the window ends the program, and messages that are neither commands nor
/// events at the icon are passed on.
pub proof fn other_messages_are_passed_on(msg: u32, wparam: usize, lparam: isize)
    ensures
        tray::tray_response(0x0002, wparam, lparam) is Quit,
        msg != 0x0002 && msg != 0x0111 && msg != 0x0401 ==> tray::tray_response(
            msg,
            wparam,
            lparam,
        ) is PassOn,
{
}

/// The menu marks what is turned on, and nothing else.
pub proof fn the_menu_marks_what_is_on(smart_switch: bool, startup: bool, i: int)
    requires
        0 <= i < tray::menu(smart_switch, startup).len(),
    ensures
        tray::menu(smart_switch, startup)[i] matches MenuItem::Entry { id, checked, .. } ==> {
            &&& tray::menu_action(id) is ToggleSmartSwitch ==> checked == smart_switch
            &&& tray::menu_action(id) is ToggleStartup ==> checked == startup
            &&& !(tray::menu_action(id) is ToggleSmartSwitch) && !(tray::menu_action(
                id,
            ) is ToggleStartup) ==> !checked
        },
{
}

/// Everything that the tray can do stands in the menu.
pub proof fn the_menu_is_complete(smart_switch: bool, startup: bool, action: TrayAction)
    requires
        !(action is ShowMenu),
        !(action is Ignore),
        !(action is PassOn),
    ensures
        exists|i: int|
            0 <= i < tray::menu(smart_switch, startup).len() && (#[trigger] tray::menu(
                smart_switch,
                startup,
            )[i] matches MenuItem::Entry { id, .. } && tray::menu_action(id) == action),
{
    let items = tray::menu(smart_switch, startup);
    assert(items[0] is Entry && items[1] is Entry && items[2] is Entry && items[3] is Entry);
    assert(items[4] is Entry && items[5] is Entry && items[7] is Entry);
}

/// The buttons of the editor save and refresh, and its other messages are dealt with as
/// windows do.
pub proof fn messages_of_the_editor(id: usize, above: usize, msg: u32, wparam: usize)
    requires
        id < 0x1_0000,
        id + above * 0x1_0000 <= usize::MAX,
    ensures
        ({
            let asked = tray::editor_response(0x0111, (id + above * 0x1_0000) as usize);
            &&& asked is SaveRule <==> id == 2003
            &&& asked is RefreshApps <==> id == 2004
            &&& asked is Ignore <==> id != 2003 && id != 2004
        }),
        tray::editor_response(0x0010, wparam) is Close,
        tray::editor_response(0x0002, wparam) is CleanUp,
        tray::editor_response(0x0138, wparam) is PaintBackground,
        tray::editor_response(0x0135, wparam) is PaintBackground,
        msg != 0x0111 && msg != 0x0010 && msg != 0x0002 && msg != 0x0138 && msg != 0x0135
            ==> tray::editor_response(msg, wparam) is PassOn,
{
}

/// A window is centred: as much is free before it as behind it, up to a pixel. One that
/// does not fit begins at the edge.
pub proof fn windows_are_centred(screen: int, extent: int)
    ensures
        ({
            let at = tray::middle(screen, extent);
            let behind = screen - extent - at;
            &&& at >= 0
            &&& extent <= screen ==> at <= behind <= at + 1
            &&& extent > screen ==> at == 0
        }),
{
}

/// The rule that is chosen is the first whose button is on, and the application the one
/// at the index. Without either nothing is chosen.
pub proof fn the_choice_is_what_is_on(apps: Seq<RunningApp>, index: int, states: Seq<isize>)
    ensures
        tray::chosen(apps, index, states) is Some <==> 0 <= index < apps.len() && states.contains(
            1isize,
        ),
        tray::chosen(apps, index, states) matches Some((app, rule)) ==> {
            &&& app == apps[index].exe_name@
            &&& rule < states.len()
            &&& states[rule as int] == 1
            &&& forall|j: int| 0 <= j < rule ==> #[trigger] states[j] != 1
        },
{
    first_checked_is_first(states);
    if states.contains(1isize) {
        let i = choose|i: int| 0 <= i < states.len() && states[i] == 1;
        assert(tray::first_checked(states) <= i);
    }
}

/// The first button that is on, and none before it.
proof fn first_checked_is_first(states: Seq<isize>)
    ensures
        tray::first_checked(states) <= states.len(),
        tray::first_checked(states) < states.len() ==> states[tray::first_checked(states) as int]
            == 1,
        forall|j: int| 0 <= j < tray::first_checked(states) ==> #[trigger] states[j] != 1,
    decreases states.len(),
{
    if states.len() > 0 && states[0] != 1 {
        let rest = states.drop_first();
        first_checked_is_first(rest);
        assert forall|j: int| 0 <= j < tray::first_checked(states) implies #[trigger] states[j]
            != 1 by {
            if j > 0 {
                assert(states[j] == rest[j - 1]);
            }
        }
    }
}

/// Each option of the editor stands for its rule.
pub proof fn options_stand_for_their_rules(i: int)
    ensures
        tray::mode_of(0)@ == "auto"@,
        tray::mode_of(1)@ == "chinese"@,
        tray::mode_of(2)@ == "english"@,
        tray::mode_of(3)@ == "remove"@,
        tray::mode_of(4)@ == "ignore"@,
        !(0 <= i < 5) ==> tray::mode_of(i)@ == "auto"@,
        tray::APP_RULE_LABELS@.len() == tray::APP_RULE_MODES@.len(),
        tray::RULE_PLACES@.len() == tray::APP_RULE_MODES@.len(),
{
}

/// What is stored is taken over at the next start, and the default only where nothing is
/// stored. A change that could not be stored changes nothing.
pub proof fn switching_is_remembered(
    before: bool,
    enabled: bool,
    default_enabled: bool,
    value: u32,
)
    ensures
        tray::initial_state(Some(tray::number_of(enabled)), default_enabled) == enabled,
        tray::initial_state(None, default_enabled) == default_enabled,
        tray::initial_state(Some(value), default_enabled) <==> value != 0,
        tray::state_after(before, enabled, true) == enabled,
        tray::state_after(before, enabled, false) == before,
{
}

/// A path in quotes begins and ends with one and holds the path between them.
pub proof fn the_start_command_holds_the_path(path: Seq<char>)
    ensures
        ({
            let command = tray::in_quotes(path);
            &&& command.len() == path.len() + 2
            &&& command[0] == '"'
            &&& command.last() == '"'
            &&& command.subrange(1, command.len() - 1) == path
        }),
{
    assert(tray::in_quotes(path).subrange(1, path.len() as int + 1) =~= path);
}

/// A window stands for an application exactly where it is visible, has a title and
/// belongs to another process that is known.
pub proof fn windows_that_stand_for_applications(
    visible: bool,
    title_len: i32,
    process_id: u32,
    own: u32,
)
    ensures
        running_apps::stands_for_app(visible, title_len, process_id, own) <==> visible && title_len
            >= 1 && process_id != 0 && process_id != own,
{
}

/// Where the last dot stands.
proof fn the_last_dot(name: Seq<char>)
    ensures
        -1 <= running_apps::last_dot(name) < name.len(),
        running_apps::last_dot(name) >= 0 ==> name[running_apps::last_dot(name)] == '.',
        forall|i: int| running_apps::last_dot(name) < i < name.len() ==> #[trigger] name[i] != '.',
    decreases name.len(),
{
    if name.len() > 0 && name.last() != '.' {
        let head = name.drop_last();
        the_last_dot(head);
        assert forall|i: int| running_apps::last_dot(name) < i < name.len() implies #[trigger] name[i]
            != '.' by {
            if i < head.len() {
                assert(name[i] == head[i]);
            }
        }
    }
}

/// An application is shown without the extension of its executable: what stands behind
/// the last dot. A name without a dot, or with one only at its beginning, is shown whole.
pub proof fn extensions_are_not_shown(base: Seq<char>, extension: Seq<char>)
    requires
        !extension.contains('.'),
    ensures
        base.len() > 0 ==> running_apps::stem(base + seq!['.'] + extension) == base,
        running_apps::stem(extension) == extension,
        running_apps::stem(seq!['.'] + extension) == seq!['.'] + extension,
{
    let name = base + seq!['.'] + extension;
    the_last_dot(name);
    the_last_dot(extension);
    the_last_dot(seq!['.'] + extension);
    let at = running_apps::last_dot(name);
    assert(name[base.len() as int] == '.');
    if at > base.len() {
        assert(extension.contains(extension[at - base.len() - 1]));
    }
    assert(name.take(base.len() as int) =~= base);
    if running_apps::last_dot(extension) >= 0 {
        assert(extension.contains(extension[running_apps::last_dot(extension)]));
    }
    let hidden = seq!['.'] + extension;
    if running_apps::last_dot(hidden) > 0 {
        assert(extension.contains(extension[running_apps::last_dot(hidden) - 1]));
    }
}

/// Of applications with the same executable up to case the first that was found is
/// listed.
pub proof fn the_first_of_each_is_listed(found: Seq<RunningApp>, i: int)
    requires
        0 <= i < running_apps::first_of_each(found).len(),
    ensures
        exists|k: int|
            0 <= k < found.len() && #[trigger] found[k] == running_apps::first_of_each(found)[i]
                && forall|j: int|
                0 <= j < k ==> running_apps::lowercase(
                    (#[trigger] found[j]).exe_name@,
                ) != running_apps::lowercase(running_apps::first_of_each(found)[i].exe_name@),
    decreases found.len(),
{
    let head = found.drop_last();
    let kept = running_apps::first_of_each(head);
    let all = running_apps::first_of_each(found);
    if i < kept.len() {
        the_first_of_each_is_listed(head, i);
        let k = choose|k: int|
            0 <= k < head.len() && #[trigger] head[k] == kept[i] && forall|j: int|
                0 <= j < k ==> running_apps::lowercase(
                    (#[trigger] head[j]).exe_name@,
                ) != running_apps::lowercase(kept[i].exe_name@);
        assert(found[k] == all[i]);
        assert forall|j: int| 0 <= j < k implies running_apps::lowercase(
            (#[trigger] found[j]).exe_name@,
        ) != running_apps::lowercase(all[i].exe_name@) by {
            assert(found[j] == head[j]);
        }
    } else {
        let k = found.len() - 1;
        assert(found[k] == all[i]);
        assert forall|j: int| 0 <= j < k implies running_apps::lowercase(
            (#[trigger] found[j]).exe_name@,
        ) != running_apps::lowercase(all[i].exe_name@) by {
            assert(found[j] == head[j]);
        }
    }
}

/// The list goes by what is shown, up to case: nothing comes before what it should
/// follow, and applications that are shown alike keep the order in which they were found.
pub proof fn the_list_goes_by_what_is_shown(apps: Seq<RunningApp>, i: int, j: int)
    requires
        running_apps::in_order(apps),
        0 <= i < j < apps.len(),
    ensures
        crate::text::no_later(
            running_apps::lowercase(apps[i].display_name@),
            running_apps::lowercase(apps[j].display_name@),
        ),
{
}

/// What is shown is the stem that was found, unless it is empty or missing.
pub proof fn a_found_stem_is_shown(found: Option<Seq<char>>, name: Seq<char>)
    ensures
        found is None || (found->0).len() == 0 ==> running_apps::shown_name(found, name) == name,
        found is Some && (found->0).len() > 0 ==> running_apps::shown_name(found, name) == found->0,
{
}

/// Applications that are shown alike up to case keep the order in which they were found.
pub proof fn what_is_shown_alike_keeps_its_order(
    sorted: Seq<RunningApp>,
    found: Seq<RunningApp>,
    shown: Seq<char>,
)
    requires
        running_apps::keeps_order(sorted, found),
    ensures
        sorted.filter(|app: RunningApp| running_apps::lowercase(app.display_name@) == shown)
            == found.filter(|app: RunningApp| running_apps::lowercase(app.display_name@) == shown),
        sorted.len() == found.len(),
{
    let alike = |app: RunningApp| running_apps::lowercase(app.display_name@) == shown;
    assert(running_apps::ordered_by(shown) =~= alike);
    assert(sorted.filter(running_apps::ordered_by(shown)) == found.filter(
        running_apps::ordered_by(shown),
    ));
    sorted.to_multiset_ensures();
    found.to_multiset_ensures();
}

} // verus!
