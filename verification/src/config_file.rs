//! The lines of a settings file.
//!
//! A line `[name]` begins the section `name`. A line `key = value` within it sets a
//! value. A number sign outside quotes begins a comment. Texts stand in double quotes
//! and hold none; a list stands in square brackets and may go over several lines.

use vstd::prelude::*;

use crate::text;

verus! {

/// The texts of the lines.
pub open spec fn texts(lines: Seq<String>) -> Seq<Seq<char>> {
    lines.map_values(|line: String| line@)
}

/// Where in a line a place is.
pub struct Place {
    /// Between quotes.
    pub quoted: bool,
    /// Within so many brackets.
    pub depth: nat,
    /// In a comment.
    pub comment: bool,
}

/// The beginning of a line.
pub open spec fn start() -> Place {
    Place { quoted: false, depth: 0, comment: false }
}

/// The place behind the character `c`.
pub open spec fn step(at: Place, c: char) -> Place {
    if at.comment {
        at
    } else if c == '"' {
        Place { quoted: !at.quoted, ..at }
    } else if at.quoted {
        at
    } else if c == '#' {
        Place { comment: true, ..at }
    } else if c == '[' {
        Place { depth: at.depth + 1, ..at }
    } else if c == ']' && at.depth > 0 {
        Place { depth: (at.depth - 1) as nat, ..at }
    } else {
        at
    }
}

/// The place behind the text `s`.
pub open spec fn scan(s: Seq<char>, from: Place) -> Place
    decreases s.len(),
{
    if s.len() == 0 {
        from
    } else {
        step(scan(s.drop_last(), from), s.last())
    }
}

/// A line without its comment.
pub open spec fn code(line: Seq<char>) -> Seq<char>
    decreases line.len(),
{
    if line.len() > 0 && scan(line, start()).comment {
        code(line.drop_last())
    } else {
        line
    }
}

/// The line begins a section.
pub open spec fn is_header(line: Seq<char>) -> bool {
    text::trimmed(code(line)).len() > 0 && text::trimmed(code(line))[0] == '['
}

/// The line that begins the section `name`.
pub open spec fn header(name: Seq<char>) -> Seq<char> {
    seq!['['] + name + seq![']']
}

/// The line begins the section `section`.
pub open spec fn begins(line: Seq<char>, section: Seq<char>) -> bool {
    text::trimmed(code(line)) == header(section)
}

/// The line begins a list that it does not end.
pub open spec fn is_open(line: Seq<char>) -> bool {
    !is_header(line) && scan(line, start()).depth > 0
}

/// The lines with each list on one line.
pub open spec fn joined(lines: Seq<Seq<char>>) -> Seq<Seq<char>>
    decreases lines.len(),
{
    if lines.len() == 0 {
        Seq::empty()
    } else {
        let head = joined(lines.drop_last());
        if head.len() > 0 && is_open(head.last()) {
            head.drop_last().push(code(head.last()) + seq![' '] + lines.last())
        } else {
            head.push(lines.last())
        }
    }
}

/// The line at `n` stands in the section `section`: that is what the last header
/// before it begins.
pub open spec fn in_section(lines: Seq<Seq<char>>, n: nat, section: Seq<char>) -> bool
    decreases n,
{
    if n == 0 {
        false
    } else if is_header(lines[n - 1]) {
        begins(lines[n - 1], section)
    } else {
        in_section(lines, (n - 1) as nat, section)
    }
}

/// The line sets `key`.
pub open spec fn sets_key(line: Seq<char>, key: Seq<char>) -> bool {
    &&& !is_header(line)
    &&& text::first_at(code(line), '=') < code(line).len()
    &&& text::before(code(line), '=') == key
}

/// What the line sets its key to.
pub open spec fn value_of(line: Seq<char>) -> Seq<char> {
    text::behind(code(line), '=')
}

/// The line at `i` sets `key` in the section `section`.
pub open spec fn sets(lines: Seq<Seq<char>>, i: int, section: Seq<char>, key: Seq<char>) -> bool {
    in_section(lines, i as nat, section) && sets_key(lines[i], key)
}

/// What the first `n` lines set `key` to: the first line that sets it decides.
pub open spec fn setting_before(
    lines: Seq<Seq<char>>,
    n: nat,
    section: Seq<char>,
    key: Seq<char>,
) -> Option<Seq<char>>
    decreases n,
{
    if n == 0 {
        None
    } else {
        match setting_before(lines, (n - 1) as nat, section, key) {
            Some(value) => Some(value),
            None => if sets(lines, n - 1, section, key) {
                Some(value_of(lines[n - 1]))
            } else {
                None
            },
        }
    }
}

/// What the file sets `key` to in the section `section`.
pub open spec fn setting_in(
    lines: Seq<Seq<char>>,
    section: Seq<char>,
    key: Seq<char>,
) -> Option<Seq<char>> {
    setting_before(lines, lines.len(), section, key)
}

/// A text behind another is read from where that one ends.
proof fn scan_joint(a: Seq<char>, b: Seq<char>, from: Place)
    ensures
        scan(a + b, from) == scan(b, scan(a, from)),
    decreases b.len(),
{
    if b.len() > 0 {
        assert((a + b).drop_last() =~= a + b.drop_last());
        scan_joint(a, b.drop_last(), from);
    } else {
        assert(a + b =~= a);
    }
}

/// A comment goes on to the end of the line.
proof fn comment_stays(line: Seq<char>, n: nat)
    requires
        n <= line.len(),
        scan(line.take(n as int), start()).comment,
    ensures
        scan(line, start()) == scan(line.take(n as int), start()),
        code(line) == code(line.take(n as int)),
    decreases line.len(),
{
    if n < line.len() {
        assert(line.drop_last().take(n as int) =~= line.take(n as int));
        comment_stays(line.drop_last(), n);
    } else {
        assert(line.take(n as int) =~= line);
    }
}

/// A line without its comment, and whether it is within brackets at its end.
fn read_line<'a>(line: &'a str) -> (r: (&'a str, bool))
    ensures
        r.0@ == code(line@),
        r.1 == (scan(line@, start()).depth > 0),
{
    let chars = text::chars_of(line);
    let mut quoted = false;
    let mut depth: usize = 0;
    let mut i: usize = 0;
    assert(line@.take(0) =~= Seq::empty());
    while i < chars.len()
        invariant
            i <= chars.len(),
            chars@ == line@,
            depth <= i,
            scan(line@.take(i as int), start()) == (Place {
                quoted,
                depth: depth as nat,
                comment: false,
            }),
        decreases chars.len() - i,
    {
        let c = chars[i];
        assert(line@.take(i + 1).drop_last() =~= line@.take(i as int));
        if c == '"' {
            quoted = !quoted;
        } else if !quoted && c == '#' {
            proof {
                comment_stays(line@, (i + 1) as nat);
                assert(code(line@.take(i as int)) == line@.take(i as int));
            }
            let kept = line.substring_char(0, i);
            assert(kept@ =~= line@.take(i as int));
            return (kept, depth > 0);
        } else if !quoted && c == '[' {
            depth += 1;
        } else if !quoted && c == ']' && depth > 0 {
            depth -= 1;
        }
        i += 1;
    }
    assert(line@.take(i as int) =~= line@);
    (line, depth > 0)
}

fn is_header_line(line: &str) -> (yes: bool)
    ensures
        yes == is_header(line@),
{
    let t = text::trim(read_line(line).0);
    t.unicode_len() > 0 && t.get_char(0) == '['
}

fn is_header_of(line: &str, section: &str) -> (yes: bool)
    ensures
        yes == begins(line@, section@),
{
    let begin = header_line(section);
    text::same_text(text::trim(read_line(line).0), begin.as_str())
}

/// The line that begins the section `section`.
fn header_line(section: &str) -> (line: String)
    ensures
        line@ == header(section@),
{
    proof {
        reveal_strlit("[");
        reveal_strlit("]");
    }
    let mut line = String::new();
    line.append("[");
    line.append(section);
    line.append("]");
    assert(line@ =~= header(section@));
    line
}

/// The lines with each list on one line.
pub fn join_lists(lines: &Vec<String>) -> (whole: Vec<String>)
    ensures
        texts(whole@) == joined(texts(lines@)),
{
    proof {
        reveal_strlit(" ");
    }
    let ghost all = texts(lines@);
    let mut whole: Vec<String> = Vec::new();
    let mut open = false;
    let mut i: usize = 0;
    assert(texts(whole@) =~= joined(all.take(0)));
    while i < lines.len()
        invariant
            i <= lines.len(),
            all == texts(lines@),
            " "@ == seq![' '],
            texts(whole@) == joined(all.take(i as int)),
            open == (whole.len() > 0 && is_open(texts(whole@).last())),
        decreases lines.len() - i,
    {
        let ghost before = whole@;
        assert(all.take(i + 1).drop_last() =~= all.take(i as int));
        let mut line = String::new();
        if open {
            if let Some(begun) = whole.pop() {
                line.append(read_line(begun.as_str()).0);
                line.append(" ");
                assert(texts(whole@) =~= texts(before).drop_last());
            }
        }
        line.append(lines[i].as_str());
        open = !is_header_line(line.as_str()) && read_line(line.as_str()).1;
        let ghost head = whole@;
        let ghost added = line@;
        whole.push(line);
        assert(texts(whole@) =~= texts(head).push(added));
        assert(added =~= joined(all.take(i + 1)).last());
        assert(texts(whole@) =~= joined(all.take(i + 1)));
        i += 1;
    }
    assert(all.take(i as int) =~= all);
    whole
}

/// What a line sets `key` to, if it does.
fn line_value(line: &str, key: &str) -> (value: Option<String>)
    ensures
        text::opt_view(value) == (if sets_key(line@, key@) {
            Some(value_of(line@))
        } else {
            None
        }),
{
    if is_header_line(line) {
        return None;
    }
    match text::split_at_first(read_line(line).0, '=') {
        Some((left, right)) => if text::same_text(left, key) {
            Some(right.to_string())
        } else {
            None
        },
        None => None,
    }
}

/// What the file sets `key` to in the section `section`.
pub fn setting(lines: &Vec<String>, section: &str, key: &str) -> (value: Option<String>)
    ensures
        text::opt_view(value) == setting_in(texts(lines@), section@, key@),
{
    let mut inside = false;
    let mut found: Option<String> = None;
    let mut i: usize = 0;
    while i < lines.len()
        invariant
            i <= lines.len(),
            inside == in_section(texts(lines@), i as nat, section@),
            text::opt_view(found) == setting_before(texts(lines@), i as nat, section@, key@),
        decreases lines.len() - i,
    {
        let line = lines[i].as_str();
        if inside && found.is_none() {
            found = line_value(line, key);
        }
        if is_header_line(line) {
            inside = is_header_of(line, section);
        }
        i += 1;
    }
    found
}

/// The first line that sets `key` in the section `section`, or the number of lines.
pub open spec fn setting_line(
    lines: Seq<Seq<char>>,
    n: nat,
    section: Seq<char>,
    key: Seq<char>,
) -> nat
    decreases n,
{
    if n == 0 {
        0
    } else {
        let before = setting_line(lines, (n - 1) as nat, section, key);
        if before < n - 1 || sets(lines, n - 1, section, key) {
            before
        } else {
            n
        }
    }
}

/// The first line that begins the section `section`, or the number of lines.
pub open spec fn header_at(lines: Seq<Seq<char>>, n: nat, section: Seq<char>) -> nat
    decreases n,
{
    if n == 0 {
        0
    } else {
        let before = header_at(lines, (n - 1) as nat, section);
        if before < n - 1 || (is_header(lines[n - 1]) && begins(lines[n - 1], section)) {
            before
        } else {
            n
        }
    }
}

/// The line that sets `key` to `value`.
pub open spec fn setting_text(key: Seq<char>, value: Seq<char>) -> Seq<char> {
    key + seq![' ', '=', ' '] + value
}

/// The lines once `key` is set to `value` in the section `section`: the
/// line that sets it is replaced, or else a line is put behind the header of the
/// section, which is added where there is none.
pub open spec fn with_setting(
    lines: Seq<Seq<char>>,
    section: Seq<char>,
    key: Seq<char>,
    value: Seq<char>,
) -> Seq<Seq<char>> {
    let at = setting_line(lines, lines.len(), section, key) as int;
    let begin = header_at(lines, lines.len(), section) as int;
    let line = setting_text(key, value);
    if at < lines.len() {
        lines.update(at, line)
    } else if begin < lines.len() {
        lines.insert(begin + 1, line)
    } else {
        lines.push(header(section)).push(line)
    }
}

/// The line that sets `key` to `value`.
fn setting_line_text(key: &str, value: &str) -> (line: String)
    ensures
        line@ == setting_text(key@, value@),
{
    proof {
        reveal_strlit(" = ");
    }
    assert(" = "@ =~= seq![' ', '=', ' ']);
    let mut line = String::new();
    line.append(key);
    line.append(" = ");
    line.append(value);
    assert(line@ =~= setting_text(key@, value@));
    line
}

/// Sets `key` to `value` in the section `section`, and leaves the other lines.
pub fn set_setting(lines: &mut Vec<String>, section: &str, key: &str, value: &str)
    ensures
        texts(final(lines)@) == with_setting(texts(old(lines)@), section@, key@, value@),
{
    let ghost before = texts(lines@);
    let n: usize = lines.len();
    let mut inside = false;
    let mut at: usize = 0;
    let mut begin: usize = 0;
    let mut i: usize = 0;
    while i < n
        invariant
            i <= n,
            n == lines.len(),
            texts(lines@) == before,
            inside == in_section(before, i as nat, section@),
            at == setting_line(before, i as nat, section@, key@),
            at <= i,
            begin == header_at(before, i as nat, section@),
            begin <= i,
        decreases n - i,
    {
        let line = lines[i].as_str();
        let header_here = is_header_line(line);
        let of_section = header_here && is_header_of(line, section);
        let sets_here = inside && line_value(line, key).is_some();
        if at == i && !sets_here {
            at = i + 1;
        }
        if begin == i && !of_section {
            begin = i + 1;
        }
        if header_here {
            inside = of_section;
        }
        i += 1;
    }
    let line = setting_line_text(key, value);
    if at < n {
        lines.set(at, line);
        assert(texts(lines@) =~= with_setting(before, section@, key@, value@));
    } else if begin < n {
        lines.insert(begin + 1, line);
        assert(texts(lines@) =~= with_setting(before, section@, key@, value@));
    } else {
        lines.push(header_line(section));
        lines.push(line);
        assert(texts(lines@) =~= with_setting(before, section@, key@, value@));
    }
}

/// A text without quotes, brackets and comments.
pub open spec fn is_word(s: Seq<char>) -> bool {
    !s.contains('"') && !s.contains('#') && !s.contains('[') && !s.contains(']')
}

/// A key that a line can set.
pub open spec fn is_key(key: Seq<char>) -> bool {
    key.len() > 0 && text::is_tight(key) && is_word(key) && !key.contains('=')
}

/// A value that a line can set: its quotes and brackets are closed, and no comment
/// stands in it.
pub open spec fn is_value(value: Seq<char>) -> bool {
    text::is_tight(value) && scan(value, start()) == start()
}

/// One character is one step.
pub proof fn scan_one(c: char, from: Place)
    ensures
        scan(seq![c], from) == step(from, c),
{
    reveal_with_fuel(scan, 2);
    assert(seq![c].drop_last() =~= Seq::empty());
}

/// A word leaves the place as it is.
pub proof fn words_are_passed(s: Seq<char>, from: Place)
    requires
        is_word(s),
        !from.quoted,
        !from.comment,
    ensures
        scan(s, from) == from,
    decreases s.len(),
{
    if s.len() > 0 {
        let head = s.drop_last();
        assert(forall|c: char| #[trigger] head.contains(c) ==> s.contains(c));
        assert(s.contains(s.last()));
        words_are_passed(head, from);
    }
}

/// What stands between quotes leaves the place as it is.
proof fn quoted_text_is_passed(s: Seq<char>, from: Place)
    requires
        !s.contains('"'),
        from.quoted,
    ensures
        scan(s, from) == from,
    decreases s.len(),
{
    if s.len() > 0 {
        let head = s.drop_last();
        assert(forall|c: char| #[trigger] head.contains(c) ==> s.contains(c));
        assert(s.contains(s.last()));
        quoted_text_is_passed(head, from);
    }
}

/// A text in quotes behind another leaves the place as it is.
pub proof fn quotes_are_passed(a: Seq<char>, s: Seq<char>, from: Place)
    requires
        !s.contains('"'),
        !scan(a, from).quoted,
        !scan(a, from).comment,
    ensures
        scan(a + (seq!['"'] + s + seq!['"']), from) == scan(a, from),
{
    let at = scan(a, from);
    let within = Place { quoted: true, ..at };
    scan_joint(a, seq!['"'] + s + seq!['"'], from);
    scan_joint(seq!['"'] + s, seq!['"'], at);
    scan_joint(seq!['"'], s, at);
    scan_one('"', at);
    quoted_text_is_passed(s, within);
    scan_one('"', within);
}

/// A word behind another text leaves the place as it is.
pub proof fn words_behind_are_passed(a: Seq<char>, s: Seq<char>, from: Place)
    requires
        is_word(s),
        !scan(a, from).quoted,
        !scan(a, from).comment,
    ensures
        scan(a + s, from) == scan(a, from),
{
    scan_joint(a, s, from);
    words_are_passed(s, scan(a, from));
}

/// A character behind a text is one more step.
pub proof fn scan_behind(a: Seq<char>, c: char, from: Place)
    ensures
        scan(a + seq![c], from) == step(scan(a, from), c),
{
    scan_joint(a, seq![c], from);
    scan_one(c, scan(a, from));
}

/// A line sets the key and the value that it was made of.
pub proof fn a_line_is_read_back(key: Seq<char>, value: Seq<char>)
    requires
        is_key(key),
        is_value(value),
    ensures
        !is_header(setting_text(key, value)),
        !is_open(setting_text(key, value)),
        sets_key(setting_text(key, value), key),
        value_of(setting_text(key, value)) == value,
{
    let line = setting_text(key, value);
    let left = key.push(' ');
    let right = seq![' '] + value;
    let sign = seq![' ', '=', ' '];
    assert(is_word(sign));
    words_are_passed(key, start());
    words_behind_are_passed(key, sign, start());
    scan_joint(key + sign, value, start());
    assert(code(line) == line);
    assert(line =~= left + seq!['='] + right);
    assert(!left.contains('=')) by {
        if left.contains('=') {
            let i = choose|i: int| 0 <= i < left.len() && left[i] == '=';
            assert(i < key.len() && key[i] == '=');
            assert(key.contains('='));
        }
    }
    text::first_at_joint(left, '=', right);
    text::blanks_are_trimmed(key);
    text::blanks_are_trimmed(value);
    assert(line.take(left.len() as int) =~= left);
    assert(line.skip(left.len() as int + 1) =~= right);
    assert(line[0] == key[0]);
    assert(key.contains(key[0]));
    text::trimming_keeps_the_beginning(line);
}

/// A header begins its section.
pub proof fn a_header_begins_its_section(section: Seq<char>)
    requires
        is_word(section),
    ensures
        is_header(header(section)),
        begins(header(section), section),
{
    let line = header(section);
    scan_one('[', start());
    words_behind_are_passed(seq!['['], section, start());
    scan_behind(seq!['['] + section, ']', start());
    assert(code(line) == line);
    assert(line[0] == '[' && line.last() == ']');
    text::blanks_are_trimmed(line);
}

/// Different sections have different headers.
proof fn headers_differ(section: Seq<char>, other: Seq<char>)
    requires
        header(section) == header(other),
    ensures
        section == other,
{
    let line = header(section);
    assert(line.subrange(1, line.len() - 1) =~= section);
    assert(line.subrange(1, line.len() - 1) =~= other);
}

/// A line stands in one section.
proof fn sections_differ(lines: Seq<Seq<char>>, n: nat, section: Seq<char>, other: Seq<char>)
    requires
        in_section(lines, n, section),
        in_section(lines, n, other),
    ensures
        section == other,
    decreases n,
{
    if is_header(lines[n - 1]) {
        headers_differ(section, other);
    } else {
        sections_differ(lines, (n - 1) as nat, section, other);
    }
}

/// The first line that sets a key does so, and none before it.
proof fn setting_line_is_first(lines: Seq<Seq<char>>, n: nat, section: Seq<char>, key: Seq<char>)
    ensures
        setting_line(lines, n, section, key) <= n,
        setting_line(lines, n, section, key) < n ==> sets(
            lines,
            setting_line(lines, n, section, key) as int,
            section,
            key,
        ),
        forall|j: int|
            0 <= j < setting_line(lines, n, section, key) ==> !#[trigger] sets(
                lines,
                j,
                section,
                key,
            ),
    decreases n,
{
    if n > 0 {
        setting_line_is_first(lines, (n - 1) as nat, section, key);
    }
}

/// The first header of a section is one.
proof fn header_at_is_header(lines: Seq<Seq<char>>, n: nat, section: Seq<char>)
    ensures
        header_at(lines, n, section) <= n,
        ({
            let h = header_at(lines, n, section) as int;
            h < n ==> is_header(lines[h]) && begins(lines[h], section)
        }),
    decreases n,
{
    if n > 0 {
        header_at_is_header(lines, (n - 1) as nat, section);
    }
}

/// What the first lines set depends on them alone.
proof fn first_lines_decide(
    lines: Seq<Seq<char>>,
    others: Seq<Seq<char>>,
    n: nat,
    section: Seq<char>,
    key: Seq<char>,
)
    requires
        forall|i: int| 0 <= i < n ==> #[trigger] lines[i] == others[i],
    ensures
        in_section(lines, n, section) == in_section(others, n, section),
        setting_before(lines, n, section, key) == setting_before(others, n, section, key),
    decreases n,
{
    if n > 0 {
        assert(lines[n - 1] == others[n - 1]);
        first_lines_decide(lines, others, (n - 1) as nat, section, key);
    }
}

/// Replacing a line by another that begins no section leaves the sections.
proof fn replacing_keeps_sections(
    lines: Seq<Seq<char>>,
    at: int,
    line: Seq<char>,
    n: nat,
    section: Seq<char>,
)
    requires
        0 <= at < lines.len(),
        n <= lines.len(),
        !is_header(lines[at]),
        !is_header(line),
    ensures
        in_section(lines.update(at, line), n, section) == in_section(lines, n, section),
    decreases n,
{
    if n > 0 {
        replacing_keeps_sections(lines, at, line, (n - 1) as nat, section);
    }
}

/// What is set after the line at `at` was replaced by one that sets `key` to `value`.
proof fn replacing_sets(
    lines: Seq<Seq<char>>,
    at: int,
    section: Seq<char>,
    key: Seq<char>,
    value: Seq<char>,
    n: nat,
    other: Seq<char>,
    other_key: Seq<char>,
)
    requires
        is_key(key),
        is_value(value),
        0 <= at < lines.len(),
        n <= lines.len(),
        sets(lines, at, section, key),
        forall|j: int| 0 <= j < at ==> !#[trigger] sets(lines, j, section, key),
    ensures
        setting_before(lines.update(at, setting_text(key, value)), n, section, key) == (if n
            <= at {
            None
        } else {
            Some(value)
        }),
        (other, other_key) != (section, key) ==> setting_before(
            lines.update(at, setting_text(key, value)),
            n,
            other,
            other_key,
        ) == setting_before(lines, n, other, other_key),
    decreases n,
{
    let line = setting_text(key, value);
    let after = lines.update(at, line);
    a_line_is_read_back(key, value);
    if n > 0 {
        let i = n - 1;
        replacing_sets(lines, at, section, key, value, i as nat, other, other_key);
        replacing_keeps_sections(lines, at, line, i as nat, section);
        replacing_keeps_sections(lines, at, line, i as nat, other);
        if i < at {
            assert(!sets(lines, i, section, key));
        }
        if i == at && in_section(lines, i as nat, other) {
            sections_differ(lines, i as nat, section, other);
        }
    }
}

/// Putting a line that begins no section behind the line at `h` leaves the sections.
proof fn inserting_keeps_sections(
    lines: Seq<Seq<char>>,
    h: int,
    line: Seq<char>,
    n: nat,
    section: Seq<char>,
)
    requires
        0 <= h < lines.len(),
        h + 1 <= n <= lines.len(),
        !is_header(line),
    ensures
        in_section(lines.insert(h + 1, line), n + 1, section) == in_section(lines, n, section),
    decreases n,
{
    let after = lines.insert(h + 1, line);
    if n == h + 1 {
        assert(after[h + 1] == line);
        assert forall|i: int| 0 <= i < n implies #[trigger] after[i] == lines[i] by {}
        first_lines_decide(after, lines, n, section, seq![]);
    } else {
        assert(after[n as int] == lines[n - 1]);
        inserting_keeps_sections(lines, h, line, (n - 1) as nat, section);
    }
}

/// What is set after a line that sets `key` to `value` was put behind the header of
/// its section, where no line set it before.
proof fn inserting_sets(
    lines: Seq<Seq<char>>,
    h: int,
    section: Seq<char>,
    key: Seq<char>,
    value: Seq<char>,
    n: nat,
    other: Seq<char>,
    other_key: Seq<char>,
)
    requires
        is_key(key),
        is_value(value),
        0 <= h < lines.len(),
        h + 1 <= n <= lines.len(),
        is_header(lines[h]),
        begins(lines[h], section),
        setting_before(lines, n, section, key) is None,
    ensures
        setting_before(lines.insert(h + 1, setting_text(key, value)), n + 1, section, key) == Some(
            value,
        ),
        (other, other_key) != (section, key) ==> setting_before(
            lines.insert(h + 1, setting_text(key, value)),
            n + 1,
            other,
            other_key,
        ) == setting_before(lines, n, other, other_key),
    decreases n,
{
    let line = setting_text(key, value);
    let after = lines.insert(h + 1, line);
    a_line_is_read_back(key, value);
    if n == h + 1 {
        assert(after[h + 1] == line);
        assert forall|i: int| 0 <= i < n implies #[trigger] after[i] == lines[i] by {}
        first_lines_decide(after, lines, n, section, key);
        first_lines_decide(after, lines, n, other, other_key);
        assert(in_section(after, n, section));
        if in_section(after, n, other) {
            sections_differ(after, n, section, other);
        }
    } else {
        assert(after[n as int] == lines[n - 1]);
        inserting_sets(lines, h, section, key, value, (n - 1) as nat, other, other_key);
        inserting_keeps_sections(lines, h, line, (n - 1) as nat, other);
    }
}

/// Nothing is set before the first line that sets a key.
proof fn nothing_is_set_before(
    lines: Seq<Seq<char>>,
    n: nat,
    section: Seq<char>,
    key: Seq<char>,
)
    requires
        forall|j: int| 0 <= j < n ==> !#[trigger] sets(lines, j, section, key),
    ensures
        setting_before(lines, n, section, key) is None,
    decreases n,
{
    if n > 0 {
        nothing_is_set_before(lines, (n - 1) as nat, section, key);
        assert(!sets(lines, n - 1, section, key));
    }
}

/// What is set is read back, and everything else that the file sets stays as it is.
pub proof fn a_setting_is_read_back(
    lines: Seq<Seq<char>>,
    section: Seq<char>,
    key: Seq<char>,
    value: Seq<char>,
    other: Seq<char>,
    other_key: Seq<char>,
)
    requires
        is_word(section),
        is_key(key),
        is_value(value),
    ensures
        setting_in(with_setting(lines, section, key, value), section, key) == Some(value),
        (other, other_key) != (section, key) ==> setting_in(
            with_setting(lines, section, key, value),
            other,
            other_key,
        ) == setting_in(lines, other, other_key),
{
    let n = lines.len();
    let at = setting_line(lines, n, section, key);
    let begin = header_at(lines, n, section);
    setting_line_is_first(lines, n, section, key);
    header_at_is_header(lines, n, section);
    if at < n {
        replacing_sets(lines, at as int, section, key, value, n, other, other_key);
    } else {
        nothing_is_set_before(lines, n, section, key);
        if begin < n {
            inserting_sets(lines, begin as int, section, key, value, n, other, other_key);
        } else {
            let headed = lines.push(header(section));
            a_header_begins_its_section(section);
            assert forall|i: int| 0 <= i < n implies #[trigger] headed[i] == lines[i] by {}
            first_lines_decide(headed, lines, n, section, key);
            first_lines_decide(headed, lines, n, other, other_key);
            assert(headed[n as int] == header(section));
            inserting_sets(headed, n as int, section, key, value, n + 1, other, other_key);
            assert(headed.insert(n as int + 1, setting_text(key, value)) =~= with_setting(
                lines,
                section,
                key,
                value,
            ));
        }
    }
}

/// Only the last line can begin a list that it does not end.
pub open spec fn lists_are_whole(lines: Seq<Seq<char>>) -> bool {
    forall|i: int| 0 <= i < lines.len() - 1 ==> !is_open(#[trigger] lines[i])
}

/// Once they are joined, the lines hold each list as a whole.
pub proof fn joined_lists_are_whole(lines: Seq<Seq<char>>)
    ensures
        lists_are_whole(joined(lines)),
    decreases lines.len(),
{
    if lines.len() > 0 {
        let head = joined(lines.drop_last());
        joined_lists_are_whole(lines.drop_last());
        let all = joined(lines);
        assert forall|i: int| 0 <= i < all.len() - 1 implies !is_open(#[trigger] all[i]) by {
            assert(all[i] == head[i]);
        }
    }
}

/// Lines that hold each list as a whole stay as they are.
pub proof fn whole_lists_stay(lines: Seq<Seq<char>>)
    requires
        lists_are_whole(lines),
    ensures
        joined(lines) == lines,
    decreases lines.len(),
{
    if lines.len() > 0 {
        let head = lines.drop_last();
        assert forall|i: int| 0 <= i < head.len() - 1 implies !is_open(#[trigger] head[i]) by {
            assert(head[i] == lines[i]);
        }
        whole_lists_stay(head);
        if head.len() > 0 {
            assert(!is_open(lines[lines.len() - 2]));
        }
        assert(joined(lines) =~= lines);
    } else {
        assert(joined(lines) =~= lines);
    }
}

/// The section has a header, or one can be put behind the last line: that line does
/// not begin a list that nothing ends.
pub open spec fn takes_section(lines: Seq<Seq<char>>, section: Seq<char>) -> bool {
    ||| lines.len() == 0
    ||| !is_open(lines.last())
    ||| header_at(lines, lines.len(), section) < lines.len()
}

/// The first header of a section is not behind any other.
proof fn header_at_is_first(lines: Seq<Seq<char>>, n: nat, section: Seq<char>, i: int)
    requires
        0 <= i < n,
        is_header(lines[i]),
        begins(lines[i], section),
    ensures
        header_at(lines, n, section) <= i,
    decreases n,
{
    header_at_is_header(lines, (n - 1) as nat, section);
    if i < n - 1 {
        header_at_is_first(lines, (n - 1) as nat, section, i);
    }
}

/// A line stands in a section only behind its header.
proof fn sections_have_headers(lines: Seq<Seq<char>>, n: nat, section: Seq<char>)
    requires
        in_section(lines, n, section),
    ensures
        header_at(lines, n, section) < n,
    decreases n,
{
    if is_header(lines[n - 1]) {
        header_at_is_first(lines, n, section, n - 1);
    } else {
        sections_have_headers(lines, (n - 1) as nat, section);
    }
}

/// Setting a value keeps each list whole, and leaves a header for the next one.
pub proof fn settings_keep_lists_whole(
    lines: Seq<Seq<char>>,
    section: Seq<char>,
    key: Seq<char>,
    value: Seq<char>,
)
    requires
        is_word(section),
        is_key(key),
        is_value(value),
        lists_are_whole(lines),
        takes_section(lines, section),
    ensures
        lists_are_whole(with_setting(lines, section, key, value)),
        takes_section(with_setting(lines, section, key, value), section),
{
    let n = lines.len();
    let at = setting_line(lines, n, section, key) as int;
    let begin = header_at(lines, n, section) as int;
    let line = setting_text(key, value);
    let after = with_setting(lines, section, key, value);
    setting_line_is_first(lines, n, section, key);
    header_at_is_header(lines, n, section);
    a_line_is_read_back(key, value);
    a_header_begins_its_section(section);
    if at < n {
        let h = header_at(lines, at as nat, section) as int;
        sections_have_headers(lines, at as nat, section);
        header_at_is_header(lines, at as nat, section);
        assert(after[h] == lines[h]);
        header_at_is_first(after, n, section, h);
    } else if begin < n {
        assert(after[begin] == lines[begin]);
        header_at_is_first(after, n + 1, section, begin);
        assert forall|i: int| 0 <= i < n implies !is_open(#[trigger] after[i]) by {
            if i < begin {
                assert(after[i] == lines[i]);
            } else if i > begin + 1 {
                assert(after[i] == lines[i - 1]);
            }
        }
    } else {
        assert(after[n as int] == header(section));
        header_at_is_first(after, n + 2, section, n as int);
    }
}

/// What the first `n` lines set, where the line at `i` is the first behind the
/// header at `h` that sets `key`.
proof fn first_lines_set(
    lines: Seq<Seq<char>>,
    h: int,
    i: int,
    section: Seq<char>,
    key: Seq<char>,
    n: nat,
)
    requires
        0 <= h < i < lines.len(),
        n <= lines.len(),
        is_header(lines[h]),
        begins(lines[h], section),
        forall|j: int|
            0 <= j < h ==> !(is_header(#[trigger] lines[j]) && begins(lines[j], section)),
        forall|j: int| h < j <= i ==> !is_header(#[trigger] lines[j]),
        forall|j: int| h < j < i ==> !sets_key(#[trigger] lines[j], key),
        sets_key(lines[i], key),
    ensures
        n <= h ==> !in_section(lines, n, section),
        h < n <= i ==> in_section(lines, n, section),
        n <= i ==> setting_before(lines, n, section, key) is None,
        n > i ==> setting_before(lines, n, section, key) == Some(value_of(lines[i])),
    decreases n,
{
    if n > 0 {
        first_lines_set(lines, h, i, section, key, (n - 1) as nat);
    }
}

/// The first line behind the first header of a section that sets a key decides.
pub proof fn the_first_line_decides(
    lines: Seq<Seq<char>>,
    h: int,
    i: int,
    section: Seq<char>,
    key: Seq<char>,
)
    requires
        0 <= h < i < lines.len(),
        is_header(lines[h]),
        begins(lines[h], section),
        forall|j: int|
            0 <= j < h ==> !(is_header(#[trigger] lines[j]) && begins(lines[j], section)),
        forall|j: int| h < j <= i ==> !is_header(#[trigger] lines[j]),
        forall|j: int| h < j < i ==> !sets_key(#[trigger] lines[j], key),
        sets_key(lines[i], key),
    ensures
        setting_in(lines, section, key) == Some(value_of(lines[i])),
{
    first_lines_set(lines, h, i, section, key, lines.len());
}

/// What stands behind a comment sign in code is cut off.
pub proof fn a_comment_is_cut_off(code_part: Seq<char>, comment: Seq<char>)
    requires
        !scan(code_part, start()).quoted,
        !scan(code_part, start()).comment,
    ensures
        code(code_part + seq!['#'] + comment) == code_part,
        scan(code_part + seq!['#'] + comment, start()).depth == scan(code_part, start()).depth,
{
    let begun = code_part + seq!['#'];
    let line = begun + comment;
    scan_behind(code_part, '#', start());
    assert(line.take(begun.len() as int) =~= begun);
    comment_stays(line, begun.len());
    assert(begun.drop_last() =~= code_part);
    assert(code(begun) == code(code_part));
}

/// A setting leaves nothing open.
pub proof fn settings_are_closed(key: Seq<char>, value: Seq<char>)
    requires
        is_key(key),
        is_value(value),
    ensures
        scan(setting_text(key, value), start()) == start(),
        code(setting_text(key, value)) == setting_text(key, value),
{
    let sign = seq![' ', '=', ' '];
    assert(is_word(sign));
    words_are_passed(key, start());
    words_behind_are_passed(key, sign, start());
    scan_joint(key + sign, value, start());
}

/// A header leaves nothing open.
pub proof fn headers_are_closed(section: Seq<char>)
    requires
        is_word(section),
    ensures
        scan(header(section), start()) == start(),
        code(header(section)) == header(section),
{
    scan_one('[', start());
    words_behind_are_passed(seq!['['], section, start());
    scan_behind(seq!['['] + section, ']', start());
}

/// A setting whose list is begun and not ended is open.
pub proof fn an_unfinished_list_is_open(key: Seq<char>)
    requires
        is_key(key),
    ensures
        is_open(setting_text(key, seq!['['])),
        scan(setting_text(key, seq!['[']), start()) == (Place { depth: 1, ..start() }),
        code(setting_text(key, seq!['['])) == setting_text(key, seq!['[']),
{
    let line = setting_text(key, seq!['[']);
    let sign = seq![' ', '=', ' '];
    assert(is_word(sign));
    words_are_passed(key, start());
    words_behind_are_passed(key, sign, start());
    scan_behind(key + sign, '[', start());
    assert(line[0] == key[0]);
    assert(key.contains(key[0]));
    text::trimming_keeps_the_beginning(line);
}

} // verus!
