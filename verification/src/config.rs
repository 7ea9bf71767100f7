//! The settings of switching and of the dots, and the rules of applications.

use vstd::prelude::*;

use crate::config_file;
use crate::text;

verus! {

/// The section of the settings file that holds the settings of switching.
pub const SECTION: &'static str = "auto_switch";

/// The settings of switching.
pub struct AutoSwitchConfig {
    pub enable: bool,
    /// The keyboard layout of Chinese.
    pub chinese_klid: String,
    /// The keyboard layout of English.
    pub english_klid: String,
    /// Time in milliseconds for which the focus has to rest outside inputs.
    pub settle_ms: u64,
    /// Rules of applications, such as `game.exe=ignore`.
    pub app_rules: Vec<String>,
    /// Further applications in which a caret is evidence of input.
    pub extra_input_apps: Vec<String>,
}

/// The mathematical content of an [`AutoSwitchConfig`].
#[verifier::ext_equal]
pub struct ConfigModel {
    pub enable: bool,
    pub chinese_klid: Seq<char>,
    pub english_klid: Seq<char>,
    pub settle_ms: u64,
    pub app_rules: Seq<Seq<char>>,
    pub extra_input_apps: Seq<Seq<char>>,
}

impl View for AutoSwitchConfig {
    type V = ConfigModel;

    open spec fn view(&self) -> ConfigModel {
        ConfigModel {
            enable: self.enable,
            chinese_klid: self.chinese_klid@,
            english_klid: self.english_klid@,
            settle_ms: self.settle_ms,
            app_rules: config_file::texts(self.app_rules@),
            extra_input_apps: config_file::texts(self.extra_input_apps@),
        }
    }
}

/// The settings of a dot.
#[derive(Debug, Clone, Copy, PartialEq, Eq, Structural)]
pub struct DotConfig {
    pub enable: bool,
    /// The dot is shown in English mode too.
    pub show_en: bool,
    pub size: i32,
    /// Transparency and colour in Chinese mode.
    pub color_cn: u32,
    /// Transparency and colour in English mode.
    pub color_en: u32,
    pub offset_x: i32,
    pub offset_y: i32,
}

/// The truth value that a value stands for.
pub open spec fn flag_in(value: Seq<char>) -> Option<bool> {
    if value == "true"@ {
        Some(true)
    } else if value == "false"@ {
        Some(false)
    } else {
        None
    }
}

/// What a digit stands for.
pub open spec fn digit_in(c: char, hex: bool) -> Option<nat> {
    if '0' <= c && c <= '9' {
        Some((c as nat - '0' as nat) as nat)
    } else if hex && 'a' <= c && c <= 'f' {
        Some((c as nat - 'a' as nat + 10) as nat)
    } else if hex && 'A' <= c && c <= 'F' {
        Some((c as nat - 'A' as nat + 10) as nat)
    } else {
        None
    }
}

/// The number that a row of digits stands for, or nothing where it is none.
pub open spec fn number_in_digits(digits: Seq<char>, hex: bool) -> Option<nat>
    decreases digits.len(),
{
    if digits.len() == 0 {
        None
    } else {
        let last = digit_in(digits.last(), hex);
        let head = if digits.len() == 1 {
            Some(0nat)
        } else {
            number_in_digits(digits.drop_last(), hex)
        };
        if head is Some && last is Some {
            Some(
                if hex {
                    head->0 * 16 + last->0
                } else {
                    head->0 * 10 + last->0
                },
            )
        } else {
            None
        }
    }
}

/// The value is written in hexadecimal.
pub open spec fn is_hex(value: Seq<char>) -> bool {
    value.len() >= 2 && value[0] == '0' && value[1] == 'x'
}

/// The number that a value stands for.
pub open spec fn natural_in(value: Seq<char>) -> Option<nat> {
    if is_hex(value) {
        number_in_digits(value.skip(2), true)
    } else {
        number_in_digits(value, false)
    }
}

/// The number that a value stands for, where it fits.
pub open spec fn number_in(value: Seq<char>) -> Option<u64> {
    match natural_in(value) {
        Some(n) if n <= u64::MAX => Some(n as u64),
        _ => None,
    }
}

/// The colour that a value stands for.
pub open spec fn color_in(value: Seq<char>) -> Option<u32> {
    match natural_in(value) {
        Some(n) if n <= u32::MAX => Some(n as u32),
        _ => None,
    }
}

/// The length that a value stands for. It may be negative.
pub open spec fn length_in(value: Seq<char>) -> Option<i32> {
    if value.len() > 0 && value[0] == '-' {
        match natural_in(value.skip(1)) {
            Some(n) if n <= 0x8000_0000 => Some((-(n as int)) as i32),
            _ => None,
        }
    } else {
        match natural_in(value) {
            Some(n) if n <= i32::MAX => Some(n as i32),
            _ => None,
        }
    }
}

/// The texts between the quotes of a value, in order.
pub open spec fn texts_in(value: Seq<char>) -> Seq<Seq<char>>
    decreases value.len(),
{
    let open = text::first_at(value, '"') as int;
    let rest = value.skip(open + 1);
    let close = text::first_at(rest, '"') as int;
    if open >= value.len() || close >= rest.len() {
        Seq::empty()
    } else {
        seq![rest.take(close)] + texts_in(rest.skip(close + 1))
    }
}

/// The first text between quotes.
pub open spec fn text_in(value: Seq<char>) -> Option<Seq<char>> {
    if texts_in(value).len() > 0 {
        Some(texts_in(value)[0])
    } else {
        None
    }
}

/// What the lines set `key` to in the section `section`.
pub open spec fn value_in(lines: Seq<Seq<char>>, section: Seq<char>, key: Seq<char>) -> Seq<char> {
    match config_file::setting_in(lines, section, key) {
        Some(value) => value,
        None => Seq::empty(),
    }
}

/// `found`, or else `usual`.
pub open spec fn or_else<T>(found: Option<T>, usual: T) -> T {
    match found {
        Some(value) => value,
        None => usual,
    }
}

/// The settings of switching that a file holds. What it does not hold is as usual.
pub open spec fn config_in(lines: Seq<Seq<char>>) -> ConfigModel {
    let whole = config_file::joined(lines);
    ConfigModel {
        enable: or_else(flag_in(value_in(whole, SECTION@, "enable"@)), true),
        chinese_klid: or_else(
            text_in(value_in(whole, SECTION@, "chinese_klid"@)),
            "00000804"@,
        ),
        english_klid: or_else(
            text_in(value_in(whole, SECTION@, "english_klid"@)),
            "00000409"@,
        ),
        settle_ms: or_else(number_in(value_in(whole, SECTION@, "settle_ms"@)), 80),
        app_rules: texts_in(value_in(whole, SECTION@, "app_rules"@)),
        extra_input_apps: texts_in(value_in(whole, SECTION@, "extra_input_apps"@)),
    }
}

/// The settings of the dot of the section `section` that a file holds. What it does
/// not hold is as in `usual`.
pub open spec fn dot_in(
    lines: Seq<Seq<char>>,
    section: Seq<char>,
    usual: DotConfig,
) -> DotConfig {
    let whole = config_file::joined(lines);
    DotConfig {
        enable: or_else(flag_in(value_in(whole, section, "enable"@)), usual.enable),
        show_en: or_else(flag_in(value_in(whole, section, "show_en"@)), usual.show_en),
        size: or_else(length_in(value_in(whole, section, "size"@)), usual.size),
        color_cn: or_else(color_in(value_in(whole, section, "color_cn"@)), usual.color_cn),
        color_en: or_else(color_in(value_in(whole, section, "color_en"@)), usual.color_en),
        offset_x: or_else(length_in(value_in(whole, section, "offset_x"@)), usual.offset_x),
        offset_y: or_else(length_in(value_in(whole, section, "offset_y"@)), usual.offset_y),
    }
}

fn parse_flag(value: &str) -> (flag: Option<bool>)
    ensures
        flag == flag_in(value@),
{
    if text::same_text(value, "true") {
        Some(true)
    } else if text::same_text(value, "false") {
        Some(false)
    } else {
        None
    }
}

/// A longer row of digits stands for no smaller number, and stands for one only if
/// its beginning does.
proof fn digits_grow(digits: Seq<char>, hex: bool, n: nat)
    requires
        0 < n <= digits.len(),
        number_in_digits(digits, hex) is Some,
    ensures
        number_in_digits(digits.take(n as int), hex) is Some,
        number_in_digits(digits.take(n as int), hex)->0 <= number_in_digits(digits, hex)->0,
    decreases digits.len(),
{
    if n < digits.len() {
        digits_grow(digits.drop_last(), hex, n);
        assert(digits.drop_last().take(n as int) =~= digits.take(n as int));
    } else {
        assert(digits.take(n as int) =~= digits);
    }
}

fn digit(c: char, hex: bool) -> (d: Option<u64>)
    ensures
        d is Some <==> digit_in(c, hex) is Some,
        d matches Some(n) ==> n == digit_in(c, hex)->0 && n < 16 && (!hex ==> n < 10),
{
    if '0' <= c && c <= '9' {
        Some((c as u32 - '0' as u32) as u64)
    } else if hex && 'a' <= c && c <= 'f' {
        Some((c as u32 - 'a' as u32) as u64 + 10)
    } else if hex && 'A' <= c && c <= 'F' {
        Some((c as u32 - 'A' as u32) as u64 + 10)
    } else {
        None
    }
}

/// The number that a row of digits stands for, where it fits.
fn parse_digits(digits: &str, hex: bool) -> (number: Option<u64>)
    ensures
        number == (match number_in_digits(digits@, hex) {
            Some(n) if n <= u64::MAX => Some(n as u64),
            _ => None,
        }),
{
    let chars = text::chars_of(digits);
    if chars.len() == 0 {
        return None;
    }
    let mut n: u64 = 0;
    let mut i: usize = 0;
    while i < chars.len()
        invariant
            i <= chars.len(),
            chars@ == digits@,
            i == 0 ==> n == 0,
            i > 0 ==> number_in_digits(digits@.take(i as int), hex) == Some(n as nat),
        decreases chars.len() - i,
    {
        let c = chars[i];
        let ghost head = digits@.take(i + 1);
        assert(head.drop_last() =~= digits@.take(i as int));
        assert(head.last() == c);
        proof {
            if number_in_digits(digits@, hex) is Some {
                digits_grow(digits@, hex, (i + 1) as nat);
            }
        }
        let d: u64 = match digit(c, hex) {
            Some(d) => d,
            None => {
                assert(number_in_digits(head, hex) is None);
                return None;
            },
        };
        if hex {
            assert(number_in_digits(head, hex) == Some((n * 16 + d) as nat));
            if n > (u64::MAX - d) / 16 {
                assert(n * 16 + d > u64::MAX);
                return None;
            }
            n = n * 16 + d;
        } else {
            assert(number_in_digits(head, hex) == Some((n * 10 + d) as nat));
            if n > (u64::MAX - d) / 10 {
                assert(n * 10 + d > u64::MAX);
                return None;
            }
            n = n * 10 + d;
        }
        i += 1;
    }
    assert(digits@.take(i as int) =~= digits@);
    Some(n)
}

fn parse_number(value: &str) -> (number: Option<u64>)
    ensures
        number == number_in(value@),
{
    let len: usize = value.unicode_len();
    if len >= 2 && value.get_char(0) == '0' && value.get_char(1) == 'x' {
        let digits = value.substring_char(2, len);
        assert(digits@ =~= value@.skip(2));
        parse_digits(digits, true)
    } else {
        parse_digits(value, false)
    }
}

fn parse_color(value: &str) -> (color: Option<u32>)
    ensures
        color == color_in(value@),
{
    match parse_number(value) {
        Some(n) => if n <= u32::MAX as u64 {
            Some(n as u32)
        } else {
            None
        },
        None => None,
    }
}

fn parse_length(value: &str) -> (length: Option<i32>)
    ensures
        length == length_in(value@),
{
    let len: usize = value.unicode_len();
    if len > 0 && value.get_char(0) == '-' {
        let rest = value.substring_char(1, len);
        assert(rest@ =~= value@.skip(1));
        match parse_number(rest) {
            Some(n) => if n <= 0x8000_0000 {
                let negative: i64 = 0 - n as i64;
                Some(negative as i32)
            } else {
                None
            },
            None => None,
        }
    } else {
        match parse_number(value) {
            Some(n) => if n <= i32::MAX as u64 {
                Some(n as i32)
            } else {
                None
            },
            None => None,
        }
    }
}

fn parse_texts(value: &str) -> (found: Vec<String>)
    ensures
        config_file::texts(found@) == texts_in(value@),
    decreases value@.len(),
{
    let len: usize = value.unicode_len();
    let open: usize = text::find_first(value, '"');
    if open >= len {
        let none: Vec<String> = Vec::new();
        assert(config_file::texts(none@) =~= Seq::empty());
        return none;
    }
    let rest = value.substring_char(open + 1, len);
    assert(rest@ =~= value@.skip(open + 1));
    let close: usize = text::find_first(rest, '"');
    if close >= len - open - 1 {
        let none: Vec<String> = Vec::new();
        assert(config_file::texts(none@) =~= Seq::empty());
        return none;
    }
    let first = rest.substring_char(0, close);
    assert(first@ =~= rest@.take(close as int));
    let tail = rest.substring_char(close + 1, len - open - 1);
    assert(tail@ =~= rest@.skip(close + 1));
    let mut found: Vec<String> = Vec::new();
    let mut others = parse_texts(tail);
    found.push(first.to_string());
    found.append(&mut others);
    assert(config_file::texts(found@) =~= texts_in(value@));
    found
}

fn value_of_key(lines: &Vec<String>, section: &str, key: &str) -> (value: String)
    ensures
        value@ == value_in(config_file::texts(lines@), section@, key@),
{
    match config_file::setting(lines, section, key) {
        Some(value) => value,
        None => String::new(),
    }
}

fn text_or(value: &str, usual: &str) -> (r: String)
    ensures
        r@ == or_else(text_in(value@), usual@),
{
    let found = parse_texts(value);
    if found.len() > 0 {
        let first = found[0].clone();
        assert(first@ == config_file::texts(found@)[0]);
        first
    } else {
        usual.to_string()
    }
}

fn flag_or(value: &str, usual: bool) -> (r: bool)
    ensures
        r == or_else(flag_in(value@), usual),
{
    match parse_flag(value) {
        Some(flag) => flag,
        None => usual,
    }
}

fn color_or(value: &str, usual: u32) -> (r: u32)
    ensures
        r == or_else(color_in(value@), usual),
{
    match parse_color(value) {
        Some(color) => color,
        None => usual,
    }
}

fn length_or(value: &str, usual: i32) -> (r: i32)
    ensures
        r == or_else(length_in(value@), usual),
{
    match parse_length(value) {
        Some(length) => length,
        None => usual,
    }
}

/// The settings of switching that the lines of a settings file hold.
pub fn read_config(lines: &Vec<String>) -> (config: AutoSwitchConfig)
    ensures
        config@ == config_in(config_file::texts(lines@)),
{
    let whole = config_file::join_lists(lines);
    AutoSwitchConfig {
        enable: flag_or(value_of_key(&whole, SECTION, "enable").as_str(), true),
        chinese_klid: text_or(
            value_of_key(&whole, SECTION, "chinese_klid").as_str(),
            "00000804",
        ),
        english_klid: text_or(
            value_of_key(&whole, SECTION, "english_klid").as_str(),
            "00000409",
        ),
        settle_ms: match parse_number(value_of_key(&whole, SECTION, "settle_ms").as_str()) {
            Some(number) => number,
            None => 80,
        },
        app_rules: parse_texts(value_of_key(&whole, SECTION, "app_rules").as_str()),
        extra_input_apps: parse_texts(
            value_of_key(&whole, SECTION, "extra_input_apps").as_str(),
        ),
    }
}

/// The settings of the dot of the section `section` that the lines of a settings file
/// hold.
pub fn read_dot(lines: &Vec<String>, section: &str, usual: &DotConfig) -> (dot: DotConfig)
    ensures
        dot == dot_in(config_file::texts(lines@), section@, *usual),
{
    let whole = config_file::join_lists(lines);
    DotConfig {
        enable: flag_or(value_of_key(&whole, section, "enable").as_str(), usual.enable),
        show_en: flag_or(value_of_key(&whole, section, "show_en").as_str(), usual.show_en),
        size: length_or(value_of_key(&whole, section, "size").as_str(), usual.size),
        color_cn: color_or(value_of_key(&whole, section, "color_cn").as_str(), usual.color_cn),
        color_en: color_or(value_of_key(&whole, section, "color_en").as_str(), usual.color_en),
        offset_x: length_or(value_of_key(&whole, section, "offset_x").as_str(), usual.offset_x),
        offset_y: length_or(value_of_key(&whole, section, "offset_y").as_str(), usual.offset_y),
    }
}

/// The rule `entry` is for the application `name`.
pub open spec fn is_rule_for(entry: Seq<char>, name: Seq<char>) -> bool {
    text::first_at(entry, '=') < entry.len() && text::same_ignoring_ascii_case(
        name,
        text::before(entry, '='),
    )
}

/// The rule of the application `name`: the first that is for it.
pub open spec fn rule_in(rules: Seq<Seq<char>>, name: Seq<char>) -> Option<Seq<char>>
    decreases rules.len(),
{
    if rules.len() == 0 {
        None
    } else {
        match rule_in(rules.drop_last(), name) {
            Some(mode) => Some(mode),
            None => if is_rule_for(rules.last(), name) {
                Some(text::behind(rules.last(), '='))
            } else {
                None
            },
        }
    }
}

/// What a rule says of the application `name`, if it is for it.
fn rule_mode_for(entry: &str, name: &str) -> (mode: Option<String>)
    ensures
        text::opt_view(mode) == (if is_rule_for(entry@, name@) {
            Some(text::behind(entry@, '='))
        } else {
            None
        }),
{
    match text::split_at_first(entry, '=') {
        Some((app, mode)) => if text::eq_ignore_ascii_case(name, app) {
            Some(mode.to_string())
        } else {
            None
        },
        None => None,
    }
}

/// The rules that are not for the application `app`.
pub open spec fn rules_without(rules: Seq<Seq<char>>, app: Seq<char>) -> Seq<Seq<char>> {
    rules.filter(|entry: Seq<char>| !is_rule_for(entry, app))
}

/// The applications other than `app`.
pub open spec fn apps_without(apps: Seq<Seq<char>>, app: Seq<char>) -> Seq<Seq<char>> {
    apps.filter(|other: Seq<char>| !text::same_ignoring_ascii_case(app, other))
}

/// `app` is among `apps`.
pub open spec fn is_among(app: Seq<char>, apps: Seq<Seq<char>>) -> bool {
    exists|i: int|
        0 <= i < apps.len() && text::same_ignoring_ascii_case(app, #[trigger] apps[i])
}

/// The rule `mode` for the application `app`.
pub open spec fn rule_text(app: Seq<char>, mode: Seq<char>) -> Seq<char> {
    app + seq!['='] + mode
}

/// The settings once the user chose `mode` for the application `app`. The mode
/// `remove` takes its rule away. The mode `auto` lets a caret count as input in it.
pub open spec fn with_choice(m: ConfigModel, app: Seq<char>, mode: Seq<char>) -> ConfigModel {
    let others = rules_without(m.app_rules, app);
    if mode == "remove"@ {
        ConfigModel {
            app_rules: others,
            extra_input_apps: apps_without(m.extra_input_apps, app),
            ..m
        }
    } else {
        ConfigModel {
            app_rules: others.push(rule_text(app, mode)),
            extra_input_apps: if mode == "auto"@ && !is_among(app, m.extra_input_apps) {
                m.extra_input_apps.push(app)
            } else {
                m.extra_input_apps
            },
            ..m
        }
    }
}

/// The items of a list in quotes, separated by commas.
pub open spec fn quoted_items(items: Seq<Seq<char>>) -> Seq<char>
    decreases items.len(),
{
    if items.len() == 0 {
        Seq::empty()
    } else {
        let last = seq!['"'] + items.last() + seq!['"'];
        if items.len() == 1 {
            last
        } else {
            quoted_items(items.drop_last()) + seq![',', ' '] + last
        }
    }
}

/// The list of the items.
pub open spec fn list_text(items: Seq<Seq<char>>) -> Seq<char> {
    seq!['['] + quoted_items(items) + seq![']']
}

/// The lines of a settings file once they hold the rules and applications of `m`,
/// each list on one line.
pub open spec fn lines_with(lines: Seq<Seq<char>>, m: ConfigModel) -> Seq<Seq<char>> {
    config_file::with_setting(
        config_file::with_setting(
            config_file::joined(lines),
            SECTION@,
            "app_rules"@,
            list_text(m.app_rules),
        ),
        SECTION@,
        "extra_input_apps"@,
        list_text(m.extra_input_apps),
    )
}

fn list_line(items: &Vec<String>) -> (line: String)
    ensures
        line@ == list_text(config_file::texts(items@)),
{
    proof {
        reveal_strlit("[");
        reveal_strlit("]");
        reveal_strlit("\"");
        reveal_strlit(", ");
    }
    assert("["@ =~= seq!['[']);
    assert("]"@ =~= seq![']']);
    assert("\""@ =~= seq!['"']);
    assert(", "@ =~= seq![',', ' ']);
    let ghost all = config_file::texts(items@);
    let mut line = String::new();
    line.append("[");
    let mut i: usize = 0;
    assert(all.take(0) =~= Seq::empty());
    assert(line@ =~= seq!['['] + quoted_items(all.take(0)));
    while i < items.len()
        invariant
            i <= items.len(),
            all == config_file::texts(items@),
            "\""@ == seq!['"'],
            ", "@ == seq![',', ' '],
            line@ == seq!['['] + quoted_items(all.take(i as int)),
        decreases items.len() - i,
    {
        if i > 0 {
            line.append(", ");
        }
        line.append("\"");
        line.append(items[i].as_str());
        line.append("\"");
        assert(all.take(i + 1).drop_last() =~= all.take(i as int));
        assert(all.take(i + 1).last() == items@[i as int]@);
        i += 1;
        assert(line@ =~= seq!['['] + quoted_items(all.take(i as int)));
    }
    line.append("]");
    assert(all.take(i as int) =~= all);
    assert(line@ =~= list_text(all));
    line
}

impl AutoSwitchConfig {
    /// The rule that is configured for `process_name`.
    pub fn auto_switch_app_rule(&self, process_name: &str) -> (rule: Option<String>)
        ensures
            text::opt_view(rule) == rule_in(self@.app_rules, process_name@),
    {
        let ghost rules = self@.app_rules;
        let mut i: usize = 0;
        assert(rules.take(0) =~= Seq::empty());
        while i < self.app_rules.len()
            invariant
                i <= self.app_rules.len(),
                rules == self@.app_rules,
                rule_in(rules.take(i as int), process_name@) is None,
            decreases self.app_rules.len() - i,
        {
            let mode = rule_mode_for(self.app_rules[i].as_str(), process_name);
            assert(rules.take(i + 1).drop_last() =~= rules.take(i as int));
            assert(rules.take(i + 1).last() == self.app_rules@[i as int]@);
            if mode.is_some() {
                proof {
                    first_rules_decide(rules, (i + 1) as nat, process_name@);
                }
                return mode;
            }
            i += 1;
        }
        assert(rules.take(i as int) =~= rules);
        None
    }

    /// Takes over that the user chose `mode` for the application `app`.
    pub fn update_application_setting(&mut self, app: &str, mode: &str)
        ensures
            final(self)@ == with_choice(old(self)@, app@, mode@),
    {
        self.app_rules = other_rules(&self.app_rules, app);
        if text::same_text(mode, "remove") {
            self.extra_input_apps = other_apps(&self.extra_input_apps, app);
            return;
        }
        proof {
            reveal_strlit("=");
        }
        let mut rule = String::new();
        rule.append(app);
        rule.append("=");
        rule.append(mode);
        assert(rule@ =~= rule_text(app@, mode@));
        let ghost rules = self.app_rules@;
        self.app_rules.push(rule);
        assert(config_file::texts(self.app_rules@) =~= config_file::texts(rules).push(rule@));
        if text::same_text(mode, "auto") && !app_is_among(app, &self.extra_input_apps) {
            let ghost apps = self.extra_input_apps@;
            self.extra_input_apps.push(app.to_string());
            assert(config_file::texts(self.extra_input_apps@) =~= config_file::texts(apps).push(
                app@,
            ));
        }
    }

    /// Puts the rules and applications into the lines of a settings file.
    pub fn store(&self, lines: &mut Vec<String>)
        ensures
            config_file::texts(final(lines)@) == lines_with(
                config_file::texts(old(lines)@),
                self@,
            ),
    {
        *lines = config_file::join_lists(lines);
        let rules = list_line(&self.app_rules);
        config_file::set_setting(lines, SECTION, "app_rules", rules.as_str());
        let apps = list_line(&self.extra_input_apps);
        config_file::set_setting(lines, SECTION, "extra_input_apps", apps.as_str());
    }
}

/// The first rules that hold one for an application decide.
proof fn first_rules_decide(rules: Seq<Seq<char>>, n: nat, name: Seq<char>)
    requires
        n <= rules.len(),
        rule_in(rules.take(n as int), name) is Some,
    ensures
        rule_in(rules, name) == rule_in(rules.take(n as int), name),
    decreases rules.len(),
{
    if n < rules.len() {
        assert(rules.drop_last().take(n as int) =~= rules.take(n as int));
        first_rules_decide(rules.drop_last(), n, name);
    } else {
        assert(rules.take(n as int) =~= rules);
    }
}

fn app_is_among(app: &str, apps: &Vec<String>) -> (yes: bool)
    ensures
        yes == is_among(app@, config_file::texts(apps@)),
{
    let ghost all = config_file::texts(apps@);
    let mut i: usize = 0;
    while i < apps.len()
        invariant
            i <= apps.len(),
            all == config_file::texts(apps@),
            forall|j: int| 0 <= j < i ==> !text::same_ignoring_ascii_case(app@, #[trigger] all[j]),
        decreases apps.len() - i,
    {
        assert(all[i as int] == apps@[i as int]@);
        if text::eq_ignore_ascii_case(app, apps[i].as_str()) {
            return true;
        }
        i += 1;
    }
    false
}

fn other_rules(rules: &Vec<String>, app: &str) -> (kept: Vec<String>)
    ensures
        config_file::texts(kept@) == rules_without(config_file::texts(rules@), app@),
{
    let ghost all = config_file::texts(rules@);
    let ghost stays = |entry: Seq<char>| !is_rule_for(entry, app@);
    let mut kept: Vec<String> = Vec::new();
    let mut i: usize = 0;
    proof {
        reveal(Seq::filter);
        assert(config_file::texts(kept@) =~= all.take(0).filter(stays));
    }
    while i < rules.len()
        invariant
            i <= rules.len(),
            all == config_file::texts(rules@),
            stays == (|entry: Seq<char>| !is_rule_for(entry, app@)),
            config_file::texts(kept@) == all.take(i as int).filter(stays),
        decreases rules.len() - i,
    {
        let ghost before = kept@;
        if rule_mode_for(rules[i].as_str(), app).is_none() {
            kept.push(rules[i].clone());
            assert(config_file::texts(kept@) =~= config_file::texts(before).push(
                all[i as int],
            ));
        }
        proof {
            reveal(Seq::filter);
            assert(all.take(i + 1).drop_last() =~= all.take(i as int));
        }
        i += 1;
    }
    assert(all.take(i as int) =~= all);
    kept
}

fn other_apps(apps: &Vec<String>, app: &str) -> (kept: Vec<String>)
    ensures
        config_file::texts(kept@) == apps_without(config_file::texts(apps@), app@),
{
    let ghost all = config_file::texts(apps@);
    let ghost stays = |other: Seq<char>| !text::same_ignoring_ascii_case(app@, other);
    let mut kept: Vec<String> = Vec::new();
    let mut i: usize = 0;
    proof {
        reveal(Seq::filter);
        assert(config_file::texts(kept@) =~= all.take(0).filter(stays));
    }
    while i < apps.len()
        invariant
            i <= apps.len(),
            all == config_file::texts(apps@),
            stays == (|other: Seq<char>| !text::same_ignoring_ascii_case(app@, other)),
            config_file::texts(kept@) == all.take(i as int).filter(stays),
        decreases apps.len() - i,
    {
        let ghost before = kept@;
        if !text::eq_ignore_ascii_case(app, apps[i].as_str()) {
            kept.push(apps[i].clone());
            assert(config_file::texts(kept@) =~= config_file::texts(before).push(
                all[i as int],
            ));
        }
        proof {
            reveal(Seq::filter);
            assert(all.take(i + 1).drop_last() =~= all.take(i as int));
        }
        i += 1;
    }
    assert(all.take(i as int) =~= all);
    kept
}

/// The dot at the caret where nothing else is set.
pub open spec fn caret_as_usual() -> DotConfig {
    DotConfig {
        enable: true,
        show_en: true,
        size: 8,
        color_cn: 0xA0FF7800,
        color_en: 0xA00000FF,
        offset_x: 0,
        offset_y: 0,
    }
}

/// The dot at the mouse where nothing else is set.
pub open spec fn mouse_as_usual() -> DotConfig {
    DotConfig {
        enable: true,
        show_en: true,
        size: 8,
        color_cn: 0xC8FF7800,
        color_en: 0xC80000FF,
        offset_x: 2,
        offset_y: 18,
    }
}

/// The settings of the dot at the caret.
pub fn caret_dot(lines: &Vec<String>) -> (dot: DotConfig)
    ensures
        dot == dot_in(config_file::texts(lines@), "caret"@, caret_as_usual()),
{
    let usual = DotConfig {
        enable: true,
        show_en: true,
        size: 8,
        color_cn: 0xA0FF7800,
        color_en: 0xA00000FF,
        offset_x: 0,
        offset_y: 0,
    };
    read_dot(lines, "caret", &usual)
}

/// The settings of the dot at the mouse.
pub fn mouse_dot(lines: &Vec<String>) -> (dot: DotConfig)
    ensures
        dot == dot_in(config_file::texts(lines@), "mouse"@, mouse_as_usual()),
{
    let usual = DotConfig {
        enable: true,
        show_en: true,
        size: 8,
        color_cn: 0xC8FF7800,
        color_en: 0xC80000FF,
        offset_x: 2,
        offset_y: 18,
    };
    read_dot(lines, "mouse", &usual)
}

/// The lines of the settings file that is made where there is none.
pub open spec fn first_lines() -> Seq<Seq<char>> {
    seq![
        "[auto_switch]"@,
        "enable = true"@,
        "chinese_klid = \"00000804\""@,
        "english_klid = \"00000409\""@,
        "settle_ms = 80"@,
        "app_rules = []"@,
        "extra_input_apps = []"@,
        "[caret]"@,
        "enable = true"@,
        "show_en = true"@,
        "size = 8"@,
        "color_cn = 0xA0FF7800"@,
        "color_en = 0xA00000FF"@,
        "offset_x = 0"@,
        "offset_y = 0"@,
        "[mouse]"@,
        "enable = true"@,
        "show_en = true"@,
        "size = 8"@,
        "color_cn = 0xC8FF7800"@,
        "color_en = 0xC80000FF"@,
        "offset_x = 2"@,
        "offset_y = 18"@,
    ]
}

/// The lines of the settings file that is made where there is none.
pub fn default_lines() -> (lines: Vec<String>)
    ensures
        config_file::texts(lines@) == first_lines(),
{
    let mut lines: Vec<String> = Vec::new();
    lines.push("[auto_switch]".to_string());
    lines.push("enable = true".to_string());
    lines.push("chinese_klid = \"00000804\"".to_string());
    lines.push("english_klid = \"00000409\"".to_string());
    lines.push("settle_ms = 80".to_string());
    lines.push("app_rules = []".to_string());
    lines.push("extra_input_apps = []".to_string());
    lines.push("[caret]".to_string());
    lines.push("enable = true".to_string());
    lines.push("show_en = true".to_string());
    lines.push("size = 8".to_string());
    lines.push("color_cn = 0xA0FF7800".to_string());
    lines.push("color_en = 0xA00000FF".to_string());
    lines.push("offset_x = 0".to_string());
    lines.push("offset_y = 0".to_string());
    lines.push("[mouse]".to_string());
    lines.push("enable = true".to_string());
    lines.push("show_en = true".to_string());
    lines.push("size = 8".to_string());
    lines.push("color_cn = 0xC8FF7800".to_string());
    lines.push("color_en = 0xC80000FF".to_string());
    lines.push("offset_x = 2".to_string());
    lines.push("offset_y = 18".to_string());
    assert(config_file::texts(lines@) =~= first_lines());
    lines
}

} // verus!
