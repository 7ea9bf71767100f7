//! What holds of texts and of the numbers that are written in them.

use vstd::prelude::*;

use crate::config;
use crate::config_file;
use crate::processes;
use crate::text;

verus! {

/// Two characters are the same up to case exactly where they are equal or the capital and
/// the small form of one ASCII letter.
pub proof fn only_ascii_letters_have_a_case(a: char, b: char)
    ensures
        text::same_ignoring_ascii_case(seq![a], seq![b]) <==> {
            ||| a == b
            ||| 'A' <= a && a <= 'Z' && b as u32 == a as u32 + 32
            ||| 'A' <= b && b <= 'Z' && a as u32 == b as u32 + 32
        },
{
    let s = seq![a];
    assert(text::ascii_fold(s[0]) == text::ascii_fold(a));
    if text::ascii_fold(a) == text::ascii_fold(b) {
        assert forall|i: int| 0 <= i < 1 implies text::ascii_fold(#[trigger] s[i])
            == text::ascii_fold(seq![b][i]) by {}
    }
}

/// Texts are the same up to case where their characters are, one by one. That is a
/// relation of equals.
pub proof fn sameness_goes_by_characters(a: Seq<char>, b: Seq<char>, c: Seq<char>)
    ensures
        text::same_ignoring_ascii_case(a, a),
        text::same_ignoring_ascii_case(a, b) ==> text::same_ignoring_ascii_case(b, a),
        text::same_ignoring_ascii_case(a, b) && text::same_ignoring_ascii_case(b, c)
            ==> text::same_ignoring_ascii_case(a, c),
        text::same_ignoring_ascii_case(a, b) <==> a.len() == b.len() && forall|i: int|
            0 <= i < a.len() ==> text::same_ignoring_ascii_case(
                seq![#[trigger] a[i]],
                seq![b[i]],
            ),
{
    if text::same_ignoring_ascii_case(a, b) {
        assert forall|i: int| 0 <= i < b.len() implies text::ascii_fold(#[trigger] b[i])
            == text::ascii_fold(a[i]) by {
            assert(text::ascii_fold(a[i]) == text::ascii_fold(b[i]));
        }
        assert forall|i: int| 0 <= i < a.len() implies text::same_ignoring_ascii_case(
            seq![#[trigger] a[i]],
            seq![b[i]],
        ) by {
            assert(text::ascii_fold(a[i]) == text::ascii_fold(b[i]));
        }
        if text::same_ignoring_ascii_case(b, c) {
            assert forall|i: int| 0 <= i < a.len() implies text::ascii_fold(#[trigger] a[i])
                == text::ascii_fold(c[i]) by {
                assert(text::ascii_fold(b[i]) == text::ascii_fold(c[i]));
            }
        }
    }
    if a.len() == b.len() && forall|i: int|
        0 <= i < a.len() ==> text::same_ignoring_ascii_case(seq![#[trigger] a[i]], seq![b[i]]) {
        assert forall|i: int| 0 <= i < a.len() implies text::ascii_fold(#[trigger] a[i])
            == text::ascii_fold(b[i]) by {
            let one = seq![a[i]];
            assert(text::same_ignoring_ascii_case(one, seq![b[i]]));
            assert(text::ascii_fold(one[0]) == text::ascii_fold(seq![b[i]][0]));
        }
    }
}

/// A text holds another exactly where it stands in it somewhere, up to case.
pub proof fn texts_hold_their_parts(before: Seq<char>, part: Seq<char>, behind: Seq<char>, wanted: Seq<char>)
    requires
        text::same_ignoring_ascii_case(part, wanted),
    ensures
        text::contains_ignoring_ascii_case(before + part + behind, wanted),
        !text::contains_ignoring_ascii_case(seq![], wanted) || wanted.len() == 0,
{
    let whole = before + part + behind;
    let at = before.len() as int;
    assert(whole.subrange(at, at + wanted.len()) =~= part);
}

/// The case of a name does not matter for whether it is on a list.
pub proof fn lists_do_not_mind_the_case(name: Seq<char>, other: Seq<char>, list: Seq<&str>)
    requires
        text::same_ignoring_ascii_case(name, other),
        processes::listed(name, list),
    ensures
        processes::listed(other, list),
{
    let i = choose|i: int|
        0 <= i < list.len() && text::same_ignoring_ascii_case(name, #[trigger] list[i]@);
    sameness_goes_by_characters(name, other, list[i]@);
    sameness_goes_by_characters(other, name, list[i]@);
}

/// What is on a list is one of its names.
pub proof fn lists_hold_their_names(name: Seq<char>, list: Seq<&str>, more: &str)
    ensures
        !processes::listed(name, seq![]),
        processes::listed(name, list.push(more)) <==> processes::listed(name, list)
            || text::same_ignoring_ascii_case(name, more@),
{
    let all = list.push(more);
    if processes::listed(name, all) {
        let i = choose|i: int|
            0 <= i < all.len() && text::same_ignoring_ascii_case(name, #[trigger] all[i]@);
        if i < list.len() {
            assert(text::same_ignoring_ascii_case(name, list[i]@));
        }
    }
    if processes::listed(name, list) {
        let i = choose|i: int|
            0 <= i < list.len() && text::same_ignoring_ascii_case(name, #[trigger] list[i]@);
        assert(text::same_ignoring_ascii_case(name, all[i]@));
    }
    if text::same_ignoring_ascii_case(name, more@) {
        assert(all[list.len() as int] == more);
    }
}

/// Texts are ordered by their first different character, and a beginning comes before
/// what it begins.
pub proof fn the_first_difference_orders(
    common: Seq<char>,
    a: char,
    rest: Seq<char>,
    b: char,
    other: Seq<char>,
)
    ensures
        a != b ==> (text::no_later(common + seq![a] + rest, common + seq![b] + other) <==> (
        a as u32) < (b as u32)),
        text::no_later(common, common + rest),
        text::no_later(common + rest, common) <==> rest.len() == 0,
    decreases common.len(),
{
    let left = common + seq![a] + rest;
    let right = common + seq![b] + other;
    let longer = common + rest;
    if common.len() == 0 {
        assert(left[0] == a && right[0] == b);
        assert(longer =~= rest);
    } else {
        let tail = common.drop_first();
        the_first_difference_orders(tail, a, rest, b, other);
        assert(left[0] == common[0] && right[0] == common[0] && longer[0] == common[0]);
        assert(left.drop_first() =~= tail + seq![a] + rest);
        assert(right.drop_first() =~= tail + seq![b] + other);
        assert(longer.drop_first() =~= tail + rest);
    }
}

/// A digit that is written is read as what it stands for.
proof fn digits_are_read_back(d: int, hex: bool)
    requires
        0 <= d < 16,
        hex || d < 10,
    ensures
        config::digit_in(text::digit_char(d), hex) == Some(d as nat),
{
}

/// A number that is written is read back, in decimal and in hexadecimal.
pub proof fn numbers_are_read_back(n: nat)
    ensures
        config::number_in_digits(text::decimal(n), false) == Some(n),
        config::number_in_digits(text::hexadecimal(n), true) == Some(n),
    decreases n,
{
    decimals_are_read_back(n);
    hexadecimals_are_read_back(n);
}

proof fn decimals_are_read_back(n: nat)
    ensures
        config::number_in_digits(text::numeral(n, 10), false) == Some(n),
    decreases n,
{
    let written = text::numeral(n, 10);
    digits_are_read_back((n % 10) as int, false);
    if n >= 10 {
        decimals_are_read_back(n / 10);
        text::numerals_hold_digits(n / 10, 10);
        assert(written.drop_last() =~= text::numeral(n / 10, 10));
        assert(written.last() == text::digit_char((n % 10) as int));
    } else {
        assert(written.last() == text::digit_char(n as int));
    }
}

proof fn hexadecimals_are_read_back(n: nat)
    ensures
        config::number_in_digits(text::numeral(n, 16), true) == Some(n),
    decreases n,
{
    let written = text::numeral(n, 16);
    digits_are_read_back((n % 16) as int, true);
    if n >= 16 {
        hexadecimals_are_read_back(n / 16);
        text::numerals_hold_digits(n / 16, 16);
        assert(written.drop_last() =~= text::numeral(n / 16, 16));
        assert(written.last() == text::digit_char((n % 16) as int));
    } else {
        assert(written.last() == text::digit_char(n as int));
    }
}

/// The settings read numbers as they are written: times and colours in decimal or with
/// `0x` in hexadecimal where they fit, and lengths with a sign.
pub proof fn settings_read_numbers(n: nat, length: int)
    ensures
        config::natural_in(text::decimal(n)) == Some(n),
        config::natural_in(seq!['0', 'x'] + text::hexadecimal(n)) == Some(n),
        config::number_in(text::decimal(n)) == (if n <= 0xffff_ffff_ffff_ffff {
            Some(n as u64)
        } else {
            None
        }),
        config::color_in(seq!['0', 'x'] + text::hexadecimal(n)) == (if n <= 0xffff_ffff {
            Some(n as u32)
        } else {
            None
        }),
        config::length_in(text::signed_decimal(length)) == (if -0x8000_0000 <= length
            <= 0x7fff_ffff {
            Some(length as i32)
        } else {
            None
        }),
{
    numbers_are_read_back(n);
    text::numerals_hold_digits(n, 10);
    let hex = seq!['0', 'x'] + text::hexadecimal(n);
    assert(hex.skip(2) =~= text::hexadecimal(n));
    let size = if length < 0 {
        (-length) as nat
    } else {
        length as nat
    };
    numbers_are_read_back(size);
    text::numerals_hold_digits(size, 10);
    if length < 0 {
        assert(text::signed_decimal(length).skip(1) =~= text::decimal(size));
    }
}

/// Only `true` and `false` are truth values.
pub proof fn flags_are_two_words(value: Seq<char>)
    ensures
        config::flag_in(value) == Some(true) <==> value == "true"@,
        config::flag_in(value) == Some(false) <==> value == "false"@,
{
    reveal_strlit("true");
    reveal_strlit("false");
    assert("true"@.len() != "false"@.len());
}

/// A text without blanks, tabs and returns at its ends is left of any text, and nothing
/// else is taken away.
pub proof fn only_blanks_are_trimmed(s: Seq<char>)
    ensures
        exists|i: int, j: int|
            0 <= i <= j <= s.len() && #[trigger] s.subrange(i, j) == text::trimmed(s) && (forall|
                k: int,
            |
                0 <= k < i || j <= k < s.len() ==> (#[trigger] s[k] == ' ' || s[k] == '\t' || s[k]
                    == '\r')),
        text::trimmed(s).len() > 0 ==> {
            let (first, last) = (text::trimmed(s)[0], text::trimmed(s).last());
            &&& first != ' ' && first != '\t' && first != '\r'
            &&& last != ' ' && last != '\t' && last != '\r'
        },
{
    leading_blanks(s);
    let kept = text::without_leading(s);
    trailing_blanks(kept);
    let i = s.len() - kept.len();
    let n = text::without_trailing(kept).len() as int;
    assert(s.subrange(i, i + n) =~= text::trimmed(s));
    assert forall|k: int| 0 <= k < i || i + n <= k < s.len() implies (#[trigger] s[k] == ' ' || s[k]
        == '\t' || s[k] == '\r') by {
        if k >= i + n {
            assert(s[k] == kept[k - i]);
        }
    }
}

proof fn leading_blanks(s: Seq<char>)
    ensures
        text::without_leading(s).len() <= s.len(),
        text::without_leading(s) == s.skip(s.len() - text::without_leading(s).len()),
        text::without_leading(s).len() > 0 ==> !text::is_blank(text::without_leading(s)[0]),
        forall|k: int|
            0 <= k < s.len() - text::without_leading(s).len() ==> text::is_blank(#[trigger] s[k]),
    decreases s.len(),
{
    if s.len() > 0 && text::is_blank(s[0]) {
        let rest = s.drop_first();
        leading_blanks(rest);
        assert forall|k: int|
            0 <= k < s.len() - text::without_leading(s).len() implies text::is_blank(
            #[trigger] s[k],
        ) by {
            if k > 0 {
                assert(s[k] == rest[k - 1]);
            }
        }
    }
    assert(text::without_leading(s) =~= s.skip(s.len() - text::without_leading(s).len()));
}

proof fn trailing_blanks(s: Seq<char>)
    ensures
        text::without_trailing(s).len() <= s.len(),
        text::without_trailing(s) == s.take(text::without_trailing(s).len() as int),
        text::without_trailing(s).len() > 0 ==> !text::is_blank(text::without_trailing(s).last()),
        forall|k: int|
            text::without_trailing(s).len() <= k < s.len() ==> text::is_blank(#[trigger] s[k]),
    decreases s.len(),
{
    if s.len() > 0 && text::is_blank(s.last()) {
        let rest = s.drop_last();
        trailing_blanks(rest);
        assert forall|k: int|
            text::without_trailing(s).len() <= k < s.len() implies text::is_blank(#[trigger] s[k]) by {
            if k < rest.len() {
                assert(s[k] == rest[k]);
            }
        }
    }
    assert(text::without_trailing(s) =~= s.take(text::without_trailing(s).len() as int));
}

/// A comment behind a setting changes nothing of it.
pub proof fn comments_change_no_setting(key: Seq<char>, value: Seq<char>, comment: Seq<char>)
    requires
        config_file::is_key(key),
        config_file::is_value(value),
    ensures
        ({
            let line = config_file::setting_text(key, value) + seq!['#'] + comment;
            &&& config_file::code(line) == config_file::setting_text(key, value)
            &&& config_file::sets_key(line, key)
            &&& config_file::value_of(line) == value
            &&& !config_file::is_header(line)
        }),
{
    let set = config_file::setting_text(key, value);
    config_file::a_line_is_read_back(key, value);
    config_file::settings_are_closed(key, value);
    config_file::a_comment_is_cut_off(set, comment);
}

/// A comment behind a header leaves it the header of its section.
pub proof fn comments_change_no_header(section: Seq<char>, comment: Seq<char>)
    requires
        config_file::is_word(section),
    ensures
        config_file::begins(config_file::header(section) + seq!['#'] + comment, section),
        config_file::is_header(config_file::header(section) + seq!['#'] + comment),
{
    let line = config_file::header(section);
    config_file::a_header_begins_its_section(section);
    config_file::headers_are_closed(section);
    config_file::a_comment_is_cut_off(line, comment);
}

/// A list that is begun goes on in the next line, and lines without one stand for
/// themselves.
pub proof fn a_list_goes_on_in_the_next_line(
    lines: Seq<Seq<char>>,
    key: Seq<char>,
    next: Seq<char>,
)
    requires
        config_file::is_key(key),
        lines.len() > 0,
        config_file::joined(lines).last() == config_file::setting_text(key, seq!['[']),
    ensures
        config_file::joined(lines.push(next)) == config_file::joined(lines).drop_last().push(
            config_file::setting_text(key, seq!['[']) + seq![' '] + next,
        ),
{
    config_file::an_unfinished_list_is_open(key);
    assert(lines.push(next).drop_last() =~= lines);
    joined_lines_are_some(lines);
}

proof fn joined_lines_are_some(lines: Seq<Seq<char>>)
    requires
        lines.len() > 0,
    ensures
        config_file::joined(lines).len() > 0,
{
}

/// The rules of an application: the first that is for it counts.
pub proof fn earlier_rules_go_first(rules: Seq<Seq<char>>, more: Seq<Seq<char>>, name: Seq<char>)
    ensures
        config::rule_in(rules + more, name) == (if config::rule_in(rules, name) is Some {
            config::rule_in(rules, name)
        } else {
            config::rule_in(more, name)
        }),
    decreases more.len(),
{
    if more.len() == 0 {
        assert(rules + more =~= rules);
    } else {
        earlier_rules_go_first(rules, more.drop_last(), name);
        assert((rules + more).drop_last() =~= rules + more.drop_last());
    }
}

/// A rule is for the application that stands before its sign, up to case, and says what
/// stands behind it. What holds no sign is no rule.
pub proof fn a_rule_names_its_application(
    app: Seq<char>,
    mode: Seq<char>,
    name: Seq<char>,
    noise: Seq<char>,
)
    requires
        text::is_tight(app),
        text::is_tight(mode),
        !app.contains('='),
        !noise.contains('='),
    ensures
        config::rule_in(seq![config::rule_text(app, mode)], name) == (
        if text::same_ignoring_ascii_case(name, app) {
            Some(mode)
        } else {
            None
        }),
        config::rule_in(seq![noise], name) is None,
{
    let rule = config::rule_text(app, mode);
    text::first_at_joint(app, '=', mode);
    text::first_at_misses(noise, '=');
    assert(rule.take(app.len() as int) =~= app);
    assert(rule.skip(app.len() as int + 1) =~= mode);
    text::blanks_are_trimmed(app);
    text::blanks_are_trimmed(mode);
    reveal_with_fuel(config::rule_in, 2);
    assert(seq![rule].drop_last() =~= Seq::empty());
    assert(seq![noise].drop_last() =~= Seq::empty());
}

/// A choice changes nothing but rules and the applications in which a caret counts, and
/// of these none but the chosen one, and that only for the automatic mode or when the
/// rule is taken away.
pub proof fn a_choice_changes_one_application(
    m: config::ConfigModel,
    app: Seq<char>,
    mode: Seq<char>,
    other: Seq<char>,
)
    requires
        !text::same_ignoring_ascii_case(other, app),
    ensures
        ({
            let after = config::with_choice(m, app, mode);
            &&& after.enable == m.enable && after.settle_ms == m.settle_ms
            &&& after.chinese_klid == m.chinese_klid && after.english_klid == m.english_klid
            &&& config::is_among(other, after.extra_input_apps) <==> config::is_among(
                other,
                m.extra_input_apps,
            )
            &&& mode != "auto"@ && mode != "remove"@ ==> after.extra_input_apps
                == m.extra_input_apps
        }),
{
    let after = config::with_choice(m, app, mode).extra_input_apps;
    let before = m.extra_input_apps;
    let stays = |listed: Seq<char>| !text::same_ignoring_ascii_case(app, listed);
    if config::is_among(other, before) {
        let i = choose|i: int|
            0 <= i < before.len() && text::same_ignoring_ascii_case(other, #[trigger] before[i]);
        if mode == "remove"@ {
            if !stays(before[i]) {
                sameness_goes_by_characters(app, before[i], other);
                sameness_goes_by_characters(other, before[i], app);
                assert(text::same_ignoring_ascii_case(before[i], app));
            }
            before.lemma_filter_contains(stays, i);
            let kept = before.filter(stays);
            let j = choose|j: int| 0 <= j < kept.len() && kept[j] == before[i];
            assert(text::same_ignoring_ascii_case(other, after[j]));
        } else {
            assert(after[i] == before[i]);
        }
    }
    if config::is_among(other, after) {
        let i = choose|i: int|
            0 <= i < after.len() && text::same_ignoring_ascii_case(other, #[trigger] after[i]);
        if mode == "remove"@ {
            let kept = before.filter(stays);
            assert(kept.contains(kept[i]));
            before.lemma_filter_contains_rev(stays, kept[i]);
            let j = choose|j: int| 0 <= j < before.len() && before[j] == kept[i];
            assert(text::same_ignoring_ascii_case(other, before[j]));
        } else if i < before.len() {
            assert(after[i] == before[i]);
        }
    }
}

/// Nothing is set in an empty file, so everything is as usual.
pub proof fn an_empty_file_is_as_usual(section: Seq<char>, usual: config::DotConfig)
    ensures
        config::config_in(seq![]) == (config::ConfigModel {
            enable: true,
            chinese_klid: "00000804"@,
            english_klid: "00000409"@,
            settle_ms: 80,
            app_rules: Seq::empty(),
            extra_input_apps: Seq::empty(),
        }),
        config::dot_in(seq![], section, usual) == usual,
{
    let none = Seq::<char>::empty();
    reveal_strlit("true");
    reveal_strlit("false");
    assert("true"@.len() == 4 && "false"@.len() == 5);
    assert(config::flag_in(none) is None);
    assert(config::texts_in(none) =~= Seq::empty());
    assert(config::natural_in(none) is None);
    assert(config_file::joined(seq![]) =~= Seq::empty());
}

/// A value without quotes holds no text.
pub proof fn texts_stand_in_quotes(value: Seq<char>)
    requires
        !value.contains('"'),
    ensures
        config::texts_in(value).len() == 0,
        config::text_in(value) is None,
{
    text::first_at_misses(value, '"');
}

/// A drive and its root have no name, and neither has a bare share.
pub proof fn roots_have_no_name(letter: char)
    requires
        ('a' <= letter && letter <= 'z') || ('A' <= letter && letter <= 'Z'),
    ensures
        processes::image_of(seq![letter, ':']) is None,
        processes::image_of(seq![letter, ':', '\\']) is None,
{
    let bare = seq![letter, ':'];
    let root = seq![letter, ':', '\\'];
    assert(processes::slashed(bare.skip(2)) =~= seq!['.', '/']);
    assert(processes::slashed(root.skip(2)) =~= seq!['.', '/', '/']);
    assert(seq!['.', '/'].drop_last() =~= seq!['.']);
    assert(seq!['.', '/', '/'].drop_last() =~= seq!['.', '/']);
    reveal_with_fuel(processes::file_name_of, 4);
    reveal_with_fuel(processes::last_part, 2);
    assert(processes::last_part(seq!['.', '/']) =~= Seq::empty());
    assert(processes::last_part(seq!['.', '/', '/']) =~= Seq::empty());
}

/// A comment behind the beginning of a list does not reach into the next line.
pub proof fn comments_end_with_their_line(
    lines: Seq<Seq<char>>,
    key: Seq<char>,
    comment: Seq<char>,
    next: Seq<char>,
)
    requires
        config_file::is_key(key),
        lines.len() > 0,
        config_file::joined(lines).last() == config_file::setting_text(key, seq!['[']) + seq!['#']
            + comment,
    ensures
        config_file::joined(lines.push(next)) == config_file::joined(lines).drop_last().push(
            config_file::setting_text(key, seq!['[']) + seq![' '] + next,
        ),
{
    let begun = config_file::setting_text(key, seq!['[']);
    config_file::an_unfinished_list_is_open(key);
    config_file::a_comment_is_cut_off(begun, comment);
    assert(lines.push(next).drop_last() =~= lines);
    joined_lines_are_some(lines);
}

} // verus!
