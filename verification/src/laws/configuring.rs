//! What holds of the settings and the rules of applications.

use vstd::prelude::*;

use crate::config;
use crate::config::ConfigModel;
use crate::config_file;
use crate::text;

verus! {

/// An application and a mode of which a rule can be made.
pub open spec fn makes_a_rule(app: Seq<char>, mode: Seq<char>) -> bool {
    text::is_tight(app) && !app.contains('=') && text::is_tight(mode)
}

/// No rule for an application is left among the others.
proof fn no_rule_is_left(rules: Seq<Seq<char>>, app: Seq<char>, n: nat)
    requires
        n <= config::rules_without(rules, app).len(),
    ensures
        config::rule_in(config::rules_without(rules, app).take(n as int), app) is None,
    decreases n,
{
    let others = config::rules_without(rules, app);
    if n > 0 {
        no_rule_is_left(rules, app, (n - 1) as nat);
        assert(others.take(n as int).drop_last() =~= others.take(n - 1));
        rules.lemma_filter_pred(|entry: Seq<char>| !config::is_rule_for(entry, app), n - 1);
        assert(others.take(n as int).last() == others[n - 1]);
    }
}

/// The mode that the user chose for an application is its rule.
pub proof fn a_choice_is_the_rule(m: ConfigModel, app: Seq<char>, mode: Seq<char>)
    requires
        makes_a_rule(app, mode),
        mode != "remove"@,
    ensures
        config::rule_in(config::with_choice(m, app, mode).app_rules, app) == Some(mode),
{
    let others = config::rules_without(m.app_rules, app);
    let rule = config::rule_text(app, mode);
    no_rule_is_left(m.app_rules, app, others.len());
    assert(others.take(others.len() as int) =~= others);
    assert(others.push(rule).drop_last() =~= others);
    text::first_at_joint(app, '=', mode);
    assert(rule.take(app.len() as int) =~= app);
    assert(rule.skip(app.len() as int + 1) =~= mode);
    text::blanks_are_trimmed(app);
    text::blanks_are_trimmed(mode);
}

/// An application whose rule was taken away has none, and is no longer listed among
/// those in which a caret counts.
pub proof fn a_rule_can_be_taken_away(m: ConfigModel, app: Seq<char>)
    ensures
        ({
            let after = config::with_choice(m, app, "remove"@);
            &&& config::rule_in(after.app_rules, app) is None
            &&& !config::is_among(app, after.extra_input_apps)
        }),
{
    let others = config::rules_without(m.app_rules, app);
    no_rule_is_left(m.app_rules, app, others.len());
    assert(others.take(others.len() as int) =~= others);
    let apps = config::apps_without(m.extra_input_apps, app);
    assert forall|i: int| 0 <= i < apps.len() implies !text::same_ignoring_ascii_case(
        app,
        #[trigger] apps[i],
    ) by {
        m.extra_input_apps.lemma_filter_pred(
            |other: Seq<char>| !text::same_ignoring_ascii_case(app, other),
            i,
        );
    }
}

/// Choosing automatic recognition lets a caret count as input in the application.
pub proof fn automatic_recognition_accepts_a_caret(m: ConfigModel, app: Seq<char>)
    ensures
        config::is_among(app, config::with_choice(m, app, "auto"@).extra_input_apps),
{
    reveal_strlit("auto");
    reveal_strlit("remove");
    assert("auto"@.len() != "remove"@.len());
    let apps = config::with_choice(m, app, "auto"@).extra_input_apps;
    if !config::is_among(app, m.extra_input_apps) {
        assert(text::same_ignoring_ascii_case(app, apps[apps.len() - 1]));
    }
}

/// Rules for another application do not depend on those of `app`.
proof fn other_rules_stay(rules: Seq<Seq<char>>, app: Seq<char>, name: Seq<char>)
    requires
        !text::same_ignoring_ascii_case(name, app),
    ensures
        config::rule_in(config::rules_without(rules, app), name) == config::rule_in(rules, name),
    decreases rules.len(),
{
    reveal(Seq::filter);
    if rules.len() > 0 {
        let entry = rules.last();
        other_rules_stay(rules.drop_last(), app, name);
        let others = config::rules_without(rules.drop_last(), app);
        if config::is_rule_for(entry, app) {
            if config::is_rule_for(entry, name) {
                let key = text::before(entry, '=');
                assert forall|i: int| 0 <= i < name.len() implies text::ascii_fold(
                    #[trigger] name[i],
                ) == text::ascii_fold(app[i]) by {
                    assert(text::ascii_fold(app[i]) == text::ascii_fold(key[i]));
                }
            }
        } else {
            assert(others.push(entry).drop_last() =~= others);
        }
    }
}

/// A choice for one application leaves the rules of the others.
pub proof fn a_choice_leaves_other_rules(
    m: ConfigModel,
    app: Seq<char>,
    mode: Seq<char>,
    name: Seq<char>,
)
    requires
        makes_a_rule(app, mode),
        !text::same_ignoring_ascii_case(name, app),
    ensures
        config::rule_in(config::with_choice(m, app, mode).app_rules, name) == config::rule_in(
            m.app_rules,
            name,
        ),
{
    let others = config::rules_without(m.app_rules, app);
    let rule = config::rule_text(app, mode);
    other_rules_stay(m.app_rules, app, name);
    assert(others.push(rule).drop_last() =~= others);
    text::first_at_joint(app, '=', mode);
    assert(rule.take(app.len() as int) =~= app);
    text::blanks_are_trimmed(app);
}

/// An item in quotes is read back, whatever stands around it.
proof fn an_item_is_read_back(before: Seq<char>, item: Seq<char>, after: Seq<char>)
    requires
        !before.contains('"'),
        !item.contains('"'),
    ensures
        config::texts_in(before + (seq!['"'] + item + seq!['"']) + after) == seq![item]
            + config::texts_in(after),
{
    let value = before + (seq!['"'] + item + seq!['"']) + after;
    let rest = item + seq!['"'] + after;
    assert(value =~= before + seq!['"'] + rest);
    text::first_at_joint(before, '"', rest);
    assert(value.skip(before.len() as int + 1) =~= rest);
    text::first_at_joint(item, '"', after);
    assert(rest.take(item.len() as int) =~= item);
    assert(rest.skip(item.len() as int + 1) =~= after);
}

/// The items of a list are read back, whatever stands around them.
proof fn items_are_read_back(before: Seq<char>, items: Seq<Seq<char>>, after: Seq<char>)
    requires
        items.len() > 0,
        !before.contains('"'),
        forall|i: int| 0 <= i < items.len() ==> !(#[trigger] items[i]).contains('"'),
    ensures
        config::texts_in(before + config::quoted_items(items) + after) == items
            + config::texts_in(after),
    decreases items.len(),
{
    let last = items.last();
    let quoted = seq!['"'] + last + seq!['"'];
    assert(!items[items.len() - 1].contains('"'));
    if items.len() == 1 {
        an_item_is_read_back(before, last, after);
        assert(items =~= seq![last]);
    } else {
        let head = items.drop_last();
        let comma = seq![',', ' '];
        let tail = comma + quoted + after;
        assert forall|i: int| 0 <= i < head.len() implies !(#[trigger] head[i]).contains('"') by {
            assert(head[i] == items[i]);
        }
        items_are_read_back(before, head, tail);
        assert(before + config::quoted_items(items) + after =~= before + config::quoted_items(
            head,
        ) + tail);
        assert(!comma.contains('"'));
        an_item_is_read_back(comma, last, after);
        assert(items + config::texts_in(after) =~= head + (seq![last] + config::texts_in(after)));
    }
}

/// A list is read back as it was written, where no item holds a quote.
pub proof fn a_list_is_read_back(items: Seq<Seq<char>>)
    requires
        forall|i: int| 0 <= i < items.len() ==> !(#[trigger] items[i]).contains('"'),
    ensures
        config::texts_in(config::list_text(items)) == items,
{
    let open = seq!['['];
    let close = seq![']'];
    assert(!open.contains('"') && !close.contains('"'));
    text::first_at_misses(close, '"');
    if items.len() > 0 {
        items_are_read_back(open, items, close);
    } else {
        let both = config::list_text(items);
        assert(both =~= seq!['[', ']']);
        assert(!both.contains('"'));
        text::first_at_misses(both, '"');
        assert(items =~= Seq::empty());
    }
}

/// Within a list its items leave the place as it is.
proof fn items_are_passed(items: Seq<Seq<char>>)
    requires
        forall|i: int| 0 <= i < items.len() ==> !(#[trigger] items[i]).contains('"'),
    ensures
        config_file::scan(seq!['['] + config::quoted_items(items), config_file::start())
            == config_file::step(config_file::start(), '['),
    decreases items.len(),
{
    let open = seq!['['];
    let from = config_file::start();
    config_file::scan_one('[', from);
    if items.len() == 0 {
        assert(open + config::quoted_items(items) =~= open);
    } else {
        let head = items.drop_last();
        let last = items.last();
        let quoted = seq!['"'] + last + seq!['"'];
        assert(!items[items.len() - 1].contains('"'));
        if items.len() == 1 {
            config_file::quotes_are_passed(open, last, from);
        } else {
            assert forall|i: int| 0 <= i < head.len() implies !(#[trigger] head[i]).contains(
                '"',
            ) by {
                assert(head[i] == items[i]);
            }
            items_are_passed(head);
            let comma = seq![',', ' '];
            let listed = open + config::quoted_items(head);
            assert(config_file::is_word(comma));
            config_file::words_behind_are_passed(listed, comma, from);
            config_file::quotes_are_passed(listed + comma, last, from);
            assert(open + config::quoted_items(items) =~= listed + comma + quoted);
        }
    }
}

/// A list is a value, where no item holds a quote.
proof fn lists_are_values(items: Seq<Seq<char>>)
    requires
        forall|i: int| 0 <= i < items.len() ==> !(#[trigger] items[i]).contains('"'),
    ensures
        config_file::is_value(config::list_text(items)),
{
    let list = config::list_text(items);
    items_are_passed(items);
    config_file::scan_behind(
        seq!['['] + config::quoted_items(items),
        ']',
        config_file::start(),
    );
    assert(list[0] == '[' && list.last() == ']');
}

/// The names of the settings are different, and lines can set them.
proof fn settings_have_names()
    ensures
        config_file::is_word(config::SECTION@),
        config_file::is_key("app_rules"@),
        config_file::is_key("extra_input_apps"@),
        "app_rules"@ != "extra_input_apps"@,
        "enable"@ != "app_rules"@,
        "enable"@ != "extra_input_apps"@,
        "chinese_klid"@ != "app_rules"@,
        "chinese_klid"@ != "extra_input_apps"@,
        "english_klid"@ != "app_rules"@,
        "english_klid"@ != "extra_input_apps"@,
        "settle_ms"@ != "app_rules"@,
        "settle_ms"@ != "extra_input_apps"@,
{
    reveal_strlit("auto_switch");
    reveal_strlit("app_rules");
    reveal_strlit("extra_input_apps");
    reveal_strlit("enable");
    reveal_strlit("chinese_klid");
    reveal_strlit("english_klid");
    reveal_strlit("settle_ms");
    assert("settle_ms"@[0] != "app_rules"@[0]);
    assert("enable"@.len() == 6 && "app_rules"@.len() == 9 && "extra_input_apps"@.len() == 16);
    assert("chinese_klid"@.len() == 12 && "english_klid"@.len() == 12);
    assert(!"app_rules"@.contains('='));
    assert(!"extra_input_apps"@.contains('='));
}

/// What is stored in a settings file is what is read from it, and everything else
/// that it holds stays. A file without the section may not end within a list.
pub proof fn stored_settings_are_read_back(
    lines: Seq<Seq<char>>,
    m: ConfigModel,
    other: Seq<char>,
    other_key: Seq<char>,
)
    requires
        forall|i: int| 0 <= i < m.app_rules.len() ==> !(#[trigger] m.app_rules[i]).contains('"'),
        forall|i: int|
            0 <= i < m.extra_input_apps.len() ==> !(#[trigger] m.extra_input_apps[i]).contains(
                '"',
            ),
        config_file::takes_section(config_file::joined(lines), config::SECTION@),
    ensures
        config::config_in(config::lines_with(lines, m)) == (ConfigModel {
            app_rules: m.app_rules,
            extra_input_apps: m.extra_input_apps,
            ..config::config_in(lines)
        }),
        other != config::SECTION@ ==> config_file::setting_in(
            config_file::joined(config::lines_with(lines, m)),
            other,
            other_key,
        ) == config_file::setting_in(config_file::joined(lines), other, other_key),
{
    let rules = config::list_text(m.app_rules);
    let apps = config::list_text(m.extra_input_apps);
    let section = config::SECTION@;
    let whole = config_file::joined(lines);
    settings_have_names();
    a_list_is_read_back(m.app_rules);
    a_list_is_read_back(m.extra_input_apps);
    lists_are_values(m.app_rules);
    lists_are_values(m.extra_input_apps);
    let ruled = config_file::with_setting(whole, section, "app_rules"@, rules);
    let stored = config::lines_with(lines, m);
    config_file::joined_lists_are_whole(lines);
    config_file::settings_keep_lists_whole(whole, section, "app_rules"@, rules);
    config_file::settings_keep_lists_whole(ruled, section, "extra_input_apps"@, apps);
    config_file::whole_lists_stay(stored);
    config_file::a_setting_is_read_back(
        whole,
        section,
        "app_rules"@,
        rules,
        other,
        other_key,
    );
    config_file::a_setting_is_read_back(
        ruled,
        section,
        "extra_input_apps"@,
        apps,
        other,
        other_key,
    );
    assert forall|key: Seq<char>| #[trigger]
        config_file::setting_in(stored, section, key) == (if key == "extra_input_apps"@ {
            Some(apps)
        } else if key == "app_rules"@ {
            Some(rules)
        } else {
            config_file::setting_in(whole, section, key)
        }) by {
        config_file::a_setting_is_read_back(whole, section, "app_rules"@, rules, section, key);
        config_file::a_setting_is_read_back(
            ruled,
            section,
            "extra_input_apps"@,
            apps,
            section,
            key,
        );
    }
}

/// The settings of switching have different names, and lines can set them.
proof fn switch_settings_have_names()
    ensures
        config_file::is_key("enable"@),
        config_file::is_key("chinese_klid"@),
        config_file::is_key("english_klid"@),
        config_file::is_key("settle_ms"@),
        config_file::is_key("app_rules"@),
        config_file::is_key("extra_input_apps"@),
        "enable"@ != "chinese_klid"@,
        "enable"@ != "english_klid"@,
        "enable"@ != "settle_ms"@,
        "enable"@ != "app_rules"@,
        "enable"@ != "extra_input_apps"@,
        "chinese_klid"@ != "english_klid"@,
        "chinese_klid"@ != "settle_ms"@,
        "chinese_klid"@ != "app_rules"@,
        "chinese_klid"@ != "extra_input_apps"@,
        "english_klid"@ != "settle_ms"@,
        "english_klid"@ != "app_rules"@,
        "english_klid"@ != "extra_input_apps"@,
        "settle_ms"@ != "app_rules"@,
        "settle_ms"@ != "extra_input_apps"@,
        "app_rules"@ != "extra_input_apps"@,
{
    settings_have_names();
    reveal_strlit("enable");
    reveal_strlit("chinese_klid");
    reveal_strlit("english_klid");
    reveal_strlit("settle_ms");
    reveal_strlit("app_rules");
    reveal_strlit("extra_input_apps");
    assert("enable"@.len() == 6 && "settle_ms"@.len() == 9);
    assert("chinese_klid"@.len() == 12 && "english_klid"@.len() == 12);
    assert("chinese_klid"@[0] != "english_klid"@[0]);
}

/// The sections have different headers.
proof fn sections_have_names()
    ensures
        config_file::header("auto_switch"@) != config_file::header("caret"@),
        config_file::header("auto_switch"@) != config_file::header("mouse"@),
        config_file::header("caret"@) != config_file::header("mouse"@),
{
    reveal_strlit("auto_switch");
    reveal_strlit("caret");
    reveal_strlit("mouse");
    assert(config_file::header("auto_switch"@).len() == 13);
    assert(config_file::header("caret"@)[1] == 'c');
    assert(config_file::header("mouse"@)[1] == 'm');
    assert(config_file::header("caret"@).len() == 7);
    assert(config_file::header("mouse"@).len() == 7);
}

/// The line sets `key` to `value`, and nothing goes on behind it.
pub open spec fn line_sets(line: Seq<char>, key: Seq<char>, value: Seq<char>) -> bool {
    &&& !config_file::is_header(line)
    &&& !config_file::is_open(line)
    &&& config_file::sets_key(line, key)
    &&& config_file::value_of(line) == value
}

/// A line that is made of a key and a word sets it.
proof fn a_word_is_set(line: Seq<char>, key: Seq<char>, value: Seq<char>)
    requires
        line == config_file::setting_text(key, value),
        config_file::is_key(key),
        text::is_tight(value),
        config_file::is_word(value),
    ensures
        line_sets(line, key, value),
{
    config_file::words_are_passed(value, config_file::start());
    config_file::a_line_is_read_back(key, value);
}

/// A line that is made of a key and a text in quotes sets it.
proof fn a_text_is_set(line: Seq<char>, key: Seq<char>, item: Seq<char>)
    requires
        config_file::is_key(key),
        !item.contains('"'),
        line == config_file::setting_text(key, seq!['"'] + item + seq!['"']),
    ensures
        line_sets(line, key, seq!['"'] + item + seq!['"']),
        config::text_in(seq!['"'] + item + seq!['"']) == Some(item),
{
    let none = Seq::<char>::empty();
    let value = seq!['"'] + item + seq!['"'];
    config_file::quotes_are_passed(none, item, config_file::start());
    assert(none + value =~= value);
    assert(value[0] == '"' && value.last() == '"');
    config_file::a_line_is_read_back(key, value);
    an_item_is_read_back(none, item, none);
    assert(none + value + none =~= value);
}

/// A line that is made of a key and an empty list sets it.
proof fn an_empty_list_is_set(line: Seq<char>, key: Seq<char>)
    requires
        config_file::is_key(key),
        line == config_file::setting_text(key, seq!['[', ']']),
    ensures
        line_sets(line, key, seq!['[', ']']),
        config::texts_in(seq!['[', ']']) == Seq::<Seq<char>>::empty(),
{
    let none = Seq::<Seq<char>>::empty();
    assert(config::list_text(none) =~= seq!['[', ']']);
    lists_are_values(none);
    a_list_is_read_back(none);
    config_file::a_line_is_read_back(key, seq!['[', ']']);
}

/// The settings of a dot have different names, and lines can set them.
proof fn dot_settings_have_names()
    ensures
        config_file::is_key("enable"@),
        config_file::is_key("show_en"@),
        config_file::is_key("size"@),
        config_file::is_key("color_cn"@),
        config_file::is_key("color_en"@),
        config_file::is_key("offset_x"@),
        config_file::is_key("offset_y"@),
        "enable"@ != "show_en"@,
        "enable"@ != "size"@,
        "enable"@ != "color_cn"@,
        "enable"@ != "color_en"@,
        "enable"@ != "offset_x"@,
        "enable"@ != "offset_y"@,
        "show_en"@ != "size"@,
        "show_en"@ != "color_cn"@,
        "show_en"@ != "color_en"@,
        "show_en"@ != "offset_x"@,
        "show_en"@ != "offset_y"@,
        "size"@ != "color_cn"@,
        "size"@ != "color_en"@,
        "size"@ != "offset_x"@,
        "size"@ != "offset_y"@,
        "color_cn"@ != "color_en"@,
        "color_cn"@ != "offset_x"@,
        "color_cn"@ != "offset_y"@,
        "color_en"@ != "offset_x"@,
        "color_en"@ != "offset_y"@,
        "offset_x"@ != "offset_y"@,
{
    reveal_strlit("enable");
    reveal_strlit("show_en");
    reveal_strlit("size");
    reveal_strlit("color_cn");
    reveal_strlit("color_en");
    reveal_strlit("offset_x");
    reveal_strlit("offset_y");
    assert("enable"@.len() == 6 && "show_en"@.len() == 7 && "size"@.len() == 4);
    assert("color_cn"@.len() == 8 && "color_en"@.len() == 8);
    assert("offset_x"@.len() == 8 && "offset_y"@.len() == 8);
    assert("color_cn"@[6] != "color_en"@[6]);
    assert("offset_x"@[7] != "offset_y"@[7]);
    assert("color_cn"@[0] != "offset_x"@[0] && "color_en"@[0] != "offset_x"@[0]);
    assert("color_cn"@[0] != "offset_y"@[0] && "color_en"@[0] != "offset_y"@[0]);
}

/// The settings of a dot are read from the lines behind its header.
proof fn a_dot_is_read(
    lines: Seq<Seq<char>>,
    h: int,
    section: Seq<char>,
    values: Seq<Seq<char>>,
)
    requires
        0 <= h,
        h + 7 < lines.len(),
        values.len() == 7,
        config_file::is_header(lines[h]),
        config_file::begins(lines[h], section),
        forall|j: int|
            0 <= j < h ==> !(config_file::is_header(#[trigger] lines[j]) && config_file::begins(
                lines[j],
                section,
            )),
        line_sets(lines[h + 1], "enable"@, values[0]),
        line_sets(lines[h + 2], "show_en"@, values[1]),
        line_sets(lines[h + 3], "size"@, values[2]),
        line_sets(lines[h + 4], "color_cn"@, values[3]),
        line_sets(lines[h + 5], "color_en"@, values[4]),
        line_sets(lines[h + 6], "offset_x"@, values[5]),
        line_sets(lines[h + 7], "offset_y"@, values[6]),
    ensures
        config::value_in(lines, section, "enable"@) == values[0],
        config::value_in(lines, section, "show_en"@) == values[1],
        config::value_in(lines, section, "size"@) == values[2],
        config::value_in(lines, section, "color_cn"@) == values[3],
        config::value_in(lines, section, "color_en"@) == values[4],
        config::value_in(lines, section, "offset_x"@) == values[5],
        config::value_in(lines, section, "offset_y"@) == values[6],
{
    dot_settings_have_names();
    config_file::the_first_line_decides(lines, h, h + 1, section, "enable"@);
    config_file::the_first_line_decides(lines, h, h + 2, section, "show_en"@);
    config_file::the_first_line_decides(lines, h, h + 3, section, "size"@);
    config_file::the_first_line_decides(lines, h, h + 4, section, "color_cn"@);
    config_file::the_first_line_decides(lines, h, h + 5, section, "color_en"@);
    config_file::the_first_line_decides(lines, h, h + 6, section, "offset_x"@);
    config_file::the_first_line_decides(lines, h, h + 7, section, "offset_y"@);
}

/// Eight hexadecimal digits stand for a colour.
proof fn a_color_is_read(value: Seq<char>, d: Seq<nat>)
    requires
        value.len() == 10,
        config::is_hex(value),
        d.len() == 8,
        forall|i: int|
            0 <= i < 8 ==> config::digit_in(#[trigger] value[i + 2], true) == Some(d[i]),
    ensures
        config::natural_in(value) == Some(
            ((((((d[0] * 16 + d[1]) * 16 + d[2]) * 16 + d[3]) * 16 + d[4]) * 16 + d[5]) * 16 + d[6])
                * 16 + d[7],
        ),
{
    let digits = value.skip(2);
    assert forall|i: int| 0 <= i < 8 implies config::digit_in(#[trigger] digits[i], true) == Some(
        d[i],
    ) by {
        assert(digits[i] == value[i + 2]);
    }
    reveal_with_fuel(config::number_in_digits, 9);
}

/// A colour of the first file.
proof fn color_a0ff7800()
    ensures
        config::color_in("0xA0FF7800"@) == Some(0xA0FF7800u32),
{
    reveal_strlit("0xA0FF7800");
    let value = "0xA0FF7800"@;
    let d: Seq<nat> = seq![10nat, 0nat, 15nat, 15nat, 7nat, 8nat, 0nat, 0nat];
    assert(config::digit_in(value[2], true) == Some(d[0]));
    assert(config::digit_in(value[3], true) == Some(d[1]));
    assert(config::digit_in(value[4], true) == Some(d[2]));
    assert(config::digit_in(value[5], true) == Some(d[3]));
    assert(config::digit_in(value[6], true) == Some(d[4]));
    assert(config::digit_in(value[7], true) == Some(d[5]));
    assert(config::digit_in(value[8], true) == Some(d[6]));
    assert(config::digit_in(value[9], true) == Some(d[7]));
    assert forall|i: int| 0 <= i < 8 implies config::digit_in(
        #[trigger] value[i + 2],
        true,
    ) == Some(d[i]) by {
        assert(i == 0 || i == 1 || i == 2 || i == 3 || i == 4 || i == 5 || i == 6 || i == 7);
    }
    a_color_is_read(value, d);
}

/// A colour of the first file.
proof fn color_a00000ff()
    ensures
        config::color_in("0xA00000FF"@) == Some(0xA00000FFu32),
{
    reveal_strlit("0xA00000FF");
    let value = "0xA00000FF"@;
    let d: Seq<nat> = seq![10nat, 0nat, 0nat, 0nat, 0nat, 0nat, 15nat, 15nat];
    assert(config::digit_in(value[2], true) == Some(d[0]));
    assert(config::digit_in(value[3], true) == Some(d[1]));
    assert(config::digit_in(value[4], true) == Some(d[2]));
    assert(config::digit_in(value[5], true) == Some(d[3]));
    assert(config::digit_in(value[6], true) == Some(d[4]));
    assert(config::digit_in(value[7], true) == Some(d[5]));
    assert(config::digit_in(value[8], true) == Some(d[6]));
    assert(config::digit_in(value[9], true) == Some(d[7]));
    assert forall|i: int| 0 <= i < 8 implies config::digit_in(
        #[trigger] value[i + 2],
        true,
    ) == Some(d[i]) by {
        assert(i == 0 || i == 1 || i == 2 || i == 3 || i == 4 || i == 5 || i == 6 || i == 7);
    }
    a_color_is_read(value, d);
}

/// A colour of the first file.
proof fn color_c8ff7800()
    ensures
        config::color_in("0xC8FF7800"@) == Some(0xC8FF7800u32),
{
    reveal_strlit("0xC8FF7800");
    let value = "0xC8FF7800"@;
    let d: Seq<nat> = seq![12nat, 8nat, 15nat, 15nat, 7nat, 8nat, 0nat, 0nat];
    assert(config::digit_in(value[2], true) == Some(d[0]));
    assert(config::digit_in(value[3], true) == Some(d[1]));
    assert(config::digit_in(value[4], true) == Some(d[2]));
    assert(config::digit_in(value[5], true) == Some(d[3]));
    assert(config::digit_in(value[6], true) == Some(d[4]));
    assert(config::digit_in(value[7], true) == Some(d[5]));
    assert(config::digit_in(value[8], true) == Some(d[6]));
    assert(config::digit_in(value[9], true) == Some(d[7]));
    assert forall|i: int| 0 <= i < 8 implies config::digit_in(
        #[trigger] value[i + 2],
        true,
    ) == Some(d[i]) by {
        assert(i == 0 || i == 1 || i == 2 || i == 3 || i == 4 || i == 5 || i == 6 || i == 7);
    }
    a_color_is_read(value, d);
}

/// A colour of the first file.
proof fn color_c80000ff()
    ensures
        config::color_in("0xC80000FF"@) == Some(0xC80000FFu32),
{
    reveal_strlit("0xC80000FF");
    let value = "0xC80000FF"@;
    let d: Seq<nat> = seq![12nat, 8nat, 0nat, 0nat, 0nat, 0nat, 15nat, 15nat];
    assert(config::digit_in(value[2], true) == Some(d[0]));
    assert(config::digit_in(value[3], true) == Some(d[1]));
    assert(config::digit_in(value[4], true) == Some(d[2]));
    assert(config::digit_in(value[5], true) == Some(d[3]));
    assert(config::digit_in(value[6], true) == Some(d[4]));
    assert(config::digit_in(value[7], true) == Some(d[5]));
    assert(config::digit_in(value[8], true) == Some(d[6]));
    assert(config::digit_in(value[9], true) == Some(d[7]));
    assert forall|i: int| 0 <= i < 8 implies config::digit_in(
        #[trigger] value[i + 2],
        true,
    ) == Some(d[i]) by {
        assert(i == 0 || i == 1 || i == 2 || i == 3 || i == 4 || i == 5 || i == 6 || i == 7);
    }
    a_color_is_read(value, d);
}

/// The lengths and times that the first file holds.
proof fn first_numbers()
    ensures
        config::length_in("0"@) == Some(0i32),
        config::length_in("2"@) == Some(2i32),
        config::length_in("8"@) == Some(8i32),
        config::length_in("18"@) == Some(18i32),
        config::number_in("80"@) == Some(80u64),
{
    assert(config::length_in("0"@) == Some(0i32)) by {
        reveal_strlit("0");
        reveal_with_fuel(config::number_in_digits, 3);
    }
    assert(config::length_in("2"@) == Some(2i32)) by {
        reveal_strlit("2");
        reveal_with_fuel(config::number_in_digits, 3);
    }
    assert(config::length_in("8"@) == Some(8i32)) by {
        reveal_strlit("8");
        reveal_with_fuel(config::number_in_digits, 3);
    }
    assert(config::length_in("18"@) == Some(18i32)) by {
        reveal_strlit("18");
        reveal_with_fuel(config::number_in_digits, 3);
    }
    assert(config::number_in("80"@) == Some(80u64)) by {
        reveal_strlit("80");
        reveal_with_fuel(config::number_in_digits, 3);
    }
}

/// The lines of the first file on `auto_switch`.
proof fn first_lines_on_auto_switch()
    ensures
        config_file::is_header(config::first_lines()[0]),
        config_file::begins(config::first_lines()[0], "auto_switch"@),
        line_sets(config::first_lines()[1], "enable"@, "true"@),
        line_sets(config::first_lines()[2], "chinese_klid"@, seq!['"'] + "00000804"@ + seq!['"']),
        line_sets(config::first_lines()[3], "english_klid"@, seq!['"'] + "00000409"@ + seq!['"']),
        line_sets(config::first_lines()[4], "settle_ms"@, "80"@),
        line_sets(config::first_lines()[5], "app_rules"@, seq!['[', ']']),
        line_sets(config::first_lines()[6], "extra_input_apps"@, seq!['[', ']']),
        config::text_in(seq!['"'] + "00000804"@ + seq!['"']) == Some("00000804"@),
        config::text_in(seq!['"'] + "00000409"@ + seq!['"']) == Some("00000409"@),
        config::texts_in(seq!['[', ']']) == Seq::<Seq<char>>::empty(),
{
    switch_settings_have_names();
    assert("[auto_switch]"@ == config_file::header("auto_switch"@) && config_file::is_word("auto_switch"@)) by {
        reveal_strlit("[auto_switch]");
        reveal_strlit("auto_switch");
    }
    config_file::a_header_begins_its_section("auto_switch"@);
    assert("enable = true"@ == config_file::setting_text("enable"@, "true"@) && text::is_tight("true"@)
        && config_file::is_word("true"@)) by {
        reveal_strlit("enable = true");
        reveal_strlit("enable");
        reveal_strlit("true");
    }
    a_word_is_set("enable = true"@, "enable"@, "true"@);
    assert("chinese_klid = \"00000804\""@ == config_file::setting_text("chinese_klid"@, seq!['"'] + "00000804"@ + seq!['"']) && !"00000804"@.contains('"')) by {
        reveal_strlit("chinese_klid = \"00000804\"");
        reveal_strlit("chinese_klid");
        reveal_strlit("00000804");
    }
    a_text_is_set("chinese_klid = \"00000804\""@, "chinese_klid"@, "00000804"@);
    assert("english_klid = \"00000409\""@ == config_file::setting_text("english_klid"@, seq!['"'] + "00000409"@ + seq!['"']) && !"00000409"@.contains('"')) by {
        reveal_strlit("english_klid = \"00000409\"");
        reveal_strlit("english_klid");
        reveal_strlit("00000409");
    }
    a_text_is_set("english_klid = \"00000409\""@, "english_klid"@, "00000409"@);
    assert("settle_ms = 80"@ == config_file::setting_text("settle_ms"@, "80"@) && text::is_tight("80"@)
        && config_file::is_word("80"@)) by {
        reveal_strlit("settle_ms = 80");
        reveal_strlit("settle_ms");
        reveal_strlit("80");
    }
    a_word_is_set("settle_ms = 80"@, "settle_ms"@, "80"@);
    assert("app_rules = []"@ == config_file::setting_text("app_rules"@, seq!['[', ']'])) by {
        reveal_strlit("app_rules = []");
        reveal_strlit("app_rules");
    }
    an_empty_list_is_set("app_rules = []"@, "app_rules"@);
    assert("extra_input_apps = []"@ == config_file::setting_text("extra_input_apps"@, seq!['[', ']'])) by {
        reveal_strlit("extra_input_apps = []");
        reveal_strlit("extra_input_apps");
    }
    an_empty_list_is_set("extra_input_apps = []"@, "extra_input_apps"@);
}

/// The lines of the first file on `caret`.
proof fn first_lines_on_caret()
    ensures
        config_file::is_header(config::first_lines()[7]),
        config_file::begins(config::first_lines()[7], "caret"@),
        line_sets(config::first_lines()[8], "enable"@, "true"@),
        line_sets(config::first_lines()[9], "show_en"@, "true"@),
        line_sets(config::first_lines()[10], "size"@, "8"@),
        line_sets(config::first_lines()[11], "color_cn"@, "0xA0FF7800"@),
        line_sets(config::first_lines()[12], "color_en"@, "0xA00000FF"@),
        line_sets(config::first_lines()[13], "offset_x"@, "0"@),
        line_sets(config::first_lines()[14], "offset_y"@, "0"@),
{
    dot_settings_have_names();
    assert("[caret]"@ == config_file::header("caret"@) && config_file::is_word("caret"@)) by {
        reveal_strlit("[caret]");
        reveal_strlit("caret");
    }
    config_file::a_header_begins_its_section("caret"@);
    assert("enable = true"@ == config_file::setting_text("enable"@, "true"@) && text::is_tight("true"@)
        && config_file::is_word("true"@)) by {
        reveal_strlit("enable = true");
        reveal_strlit("enable");
        reveal_strlit("true");
    }
    a_word_is_set("enable = true"@, "enable"@, "true"@);
    assert("show_en = true"@ == config_file::setting_text("show_en"@, "true"@) && text::is_tight("true"@)
        && config_file::is_word("true"@)) by {
        reveal_strlit("show_en = true");
        reveal_strlit("show_en");
        reveal_strlit("true");
    }
    a_word_is_set("show_en = true"@, "show_en"@, "true"@);
    assert("size = 8"@ == config_file::setting_text("size"@, "8"@) && text::is_tight("8"@)
        && config_file::is_word("8"@)) by {
        reveal_strlit("size = 8");
        reveal_strlit("size");
        reveal_strlit("8");
    }
    a_word_is_set("size = 8"@, "size"@, "8"@);
    assert("color_cn = 0xA0FF7800"@ == config_file::setting_text("color_cn"@, "0xA0FF7800"@) && text::is_tight("0xA0FF7800"@)
        && config_file::is_word("0xA0FF7800"@)) by {
        reveal_strlit("color_cn = 0xA0FF7800");
        reveal_strlit("color_cn");
        reveal_strlit("0xA0FF7800");
    }
    a_word_is_set("color_cn = 0xA0FF7800"@, "color_cn"@, "0xA0FF7800"@);
    assert("color_en = 0xA00000FF"@ == config_file::setting_text("color_en"@, "0xA00000FF"@) && text::is_tight("0xA00000FF"@)
        && config_file::is_word("0xA00000FF"@)) by {
        reveal_strlit("color_en = 0xA00000FF");
        reveal_strlit("color_en");
        reveal_strlit("0xA00000FF");
    }
    a_word_is_set("color_en = 0xA00000FF"@, "color_en"@, "0xA00000FF"@);
    assert("offset_x = 0"@ == config_file::setting_text("offset_x"@, "0"@) && text::is_tight("0"@)
        && config_file::is_word("0"@)) by {
        reveal_strlit("offset_x = 0");
        reveal_strlit("offset_x");
        reveal_strlit("0");
    }
    a_word_is_set("offset_x = 0"@, "offset_x"@, "0"@);
    assert("offset_y = 0"@ == config_file::setting_text("offset_y"@, "0"@) && text::is_tight("0"@)
        && config_file::is_word("0"@)) by {
        reveal_strlit("offset_y = 0");
        reveal_strlit("offset_y");
        reveal_strlit("0");
    }
    a_word_is_set("offset_y = 0"@, "offset_y"@, "0"@);
}

/// The lines of the first file on `mouse`.
proof fn first_lines_on_mouse()
    ensures
        config_file::is_header(config::first_lines()[15]),
        config_file::begins(config::first_lines()[15], "mouse"@),
        line_sets(config::first_lines()[16], "enable"@, "true"@),
        line_sets(config::first_lines()[17], "show_en"@, "true"@),
        line_sets(config::first_lines()[18], "size"@, "8"@),
        line_sets(config::first_lines()[19], "color_cn"@, "0xC8FF7800"@),
        line_sets(config::first_lines()[20], "color_en"@, "0xC80000FF"@),
        line_sets(config::first_lines()[21], "offset_x"@, "2"@),
        line_sets(config::first_lines()[22], "offset_y"@, "18"@),
{
    dot_settings_have_names();
    assert("[mouse]"@ == config_file::header("mouse"@) && config_file::is_word("mouse"@)) by {
        reveal_strlit("[mouse]");
        reveal_strlit("mouse");
    }
    config_file::a_header_begins_its_section("mouse"@);
    assert("enable = true"@ == config_file::setting_text("enable"@, "true"@) && text::is_tight("true"@)
        && config_file::is_word("true"@)) by {
        reveal_strlit("enable = true");
        reveal_strlit("enable");
        reveal_strlit("true");
    }
    a_word_is_set("enable = true"@, "enable"@, "true"@);
    assert("show_en = true"@ == config_file::setting_text("show_en"@, "true"@) && text::is_tight("true"@)
        && config_file::is_word("true"@)) by {
        reveal_strlit("show_en = true");
        reveal_strlit("show_en");
        reveal_strlit("true");
    }
    a_word_is_set("show_en = true"@, "show_en"@, "true"@);
    assert("size = 8"@ == config_file::setting_text("size"@, "8"@) && text::is_tight("8"@)
        && config_file::is_word("8"@)) by {
        reveal_strlit("size = 8");
        reveal_strlit("size");
        reveal_strlit("8");
    }
    a_word_is_set("size = 8"@, "size"@, "8"@);
    assert("color_cn = 0xC8FF7800"@ == config_file::setting_text("color_cn"@, "0xC8FF7800"@) && text::is_tight("0xC8FF7800"@)
        && config_file::is_word("0xC8FF7800"@)) by {
        reveal_strlit("color_cn = 0xC8FF7800");
        reveal_strlit("color_cn");
        reveal_strlit("0xC8FF7800");
    }
    a_word_is_set("color_cn = 0xC8FF7800"@, "color_cn"@, "0xC8FF7800"@);
    assert("color_en = 0xC80000FF"@ == config_file::setting_text("color_en"@, "0xC80000FF"@) && text::is_tight("0xC80000FF"@)
        && config_file::is_word("0xC80000FF"@)) by {
        reveal_strlit("color_en = 0xC80000FF");
        reveal_strlit("color_en");
        reveal_strlit("0xC80000FF");
    }
    a_word_is_set("color_en = 0xC80000FF"@, "color_en"@, "0xC80000FF"@);
    assert("offset_x = 2"@ == config_file::setting_text("offset_x"@, "2"@) && text::is_tight("2"@)
        && config_file::is_word("2"@)) by {
        reveal_strlit("offset_x = 2");
        reveal_strlit("offset_x");
        reveal_strlit("2");
    }
    a_word_is_set("offset_x = 2"@, "offset_x"@, "2"@);
    assert("offset_y = 18"@ == config_file::setting_text("offset_y"@, "18"@) && text::is_tight("18"@)
        && config_file::is_word("18"@)) by {
        reveal_strlit("offset_y = 18");
        reveal_strlit("offset_y");
        reveal_strlit("18");
    }
    a_word_is_set("offset_y = 18"@, "offset_y"@, "18"@);
}

/// The file that is made where there is none holds the usual settings: what is read
/// from it does not depend on what is taken in place of a missing setting.
pub proof fn the_first_file_holds_the_usual_settings(usual: config::DotConfig)
    ensures
        config::config_in(config::first_lines()) == (ConfigModel {
            enable: true,
            chinese_klid: "00000804"@,
            english_klid: "00000409"@,
            settle_ms: 80,
            app_rules: Seq::empty(),
            extra_input_apps: Seq::empty(),
        }),
        config::dot_in(config::first_lines(), "caret"@, usual) == config::caret_as_usual(),
        config::dot_in(config::first_lines(), "mouse"@, usual) == config::mouse_as_usual(),
        config_file::setting_in(
            config_file::joined(config::first_lines()),
            config::SECTION@,
            "enable"@,
        ) == Some("true"@),
        config_file::setting_in(
            config_file::joined(config::first_lines()),
            config::SECTION@,
            "settle_ms"@,
        ) == Some("80"@),
        config_file::setting_in(
            config_file::joined(config::first_lines()),
            config::SECTION@,
            "chinese_klid"@,
        ) is Some,
        config_file::setting_in(
            config_file::joined(config::first_lines()),
            config::SECTION@,
            "english_klid"@,
        ) is Some,
        config_file::setting_in(
            config_file::joined(config::first_lines()),
            config::SECTION@,
            "app_rules"@,
        ) is Some,
        config_file::setting_in(
            config_file::joined(config::first_lines()),
            config::SECTION@,
            "extra_input_apps"@,
        ) is Some,
{
    let lines = config::first_lines();
    first_lines_on_auto_switch();
    first_lines_on_caret();
    first_lines_on_mouse();
    switch_settings_have_names();
    first_numbers();
    color_a0ff7800();
    color_a00000ff();
    color_c8ff7800();
    color_c80000ff();
    sections_have_names();
    config_file::whole_lists_stay(lines);
    config_file::the_first_line_decides(lines, 0, 1, config::SECTION@, "enable"@);
    config_file::the_first_line_decides(lines, 0, 2, config::SECTION@, "chinese_klid"@);
    config_file::the_first_line_decides(lines, 0, 3, config::SECTION@, "english_klid"@);
    config_file::the_first_line_decides(lines, 0, 4, config::SECTION@, "settle_ms"@);
    config_file::the_first_line_decides(lines, 0, 5, config::SECTION@, "app_rules"@);
    config_file::the_first_line_decides(lines, 0, 6, config::SECTION@, "extra_input_apps"@);
    let caret = seq!["true"@, "true"@, "8"@, "0xA0FF7800"@, "0xA00000FF"@, "0"@, "0"@];
    a_dot_is_read(lines, 7, "caret"@, caret);
    let mouse = seq!["true"@, "true"@, "8"@, "0xC8FF7800"@, "0xC80000FF"@, "2"@, "18"@];
    a_dot_is_read(lines, 15, "mouse"@, mouse);
    assert("true"@ != "false"@) by {
        reveal_strlit("true");
        reveal_strlit("false");
    }
}

} // verus!
