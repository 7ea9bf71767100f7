//! Applications that are handled specially, by the name of their executable.

use vstd::prelude::*;

use crate::text;
use std::path::Path;

verus! {

/// Applications that draw their own controls and answer a query for the focused
/// accessibility element slowly or not at all. Their caret, or state tracked
/// here, stands in for that query.
pub const CARET_FAST_PATH_APPS: [&'static str; 17] = [
    "Weixin.exe",
    "WXWork.exe",
    "WeCom.exe",
    "Photoshop.exe",
    "Illustrator.exe",
    "Cinema 4D.exe",
    "JianyingPro.exe",
    "CapCut.exe",
    "SearchHost.exe",
    "SearchApp.exe",
    "StartMenuExperienceHost.exe",
    "wps.exe",
    "et.exe",
    "wpp.exe",
    "WINWORD.EXE",
    "EXCEL.EXE",
    "POWERPNT.EXE",
];

/// Applications that are never probed and never sent a language request: only
/// the state of the input method is shown for them.
pub const INDICATOR_ONLY_APPS: [&'static str; 3] = [
    "Cinema 4D.exe",
    "JianyingPro.exe",
    "CapCut.exe",
];

/// Browsers and rich-text applications whose edit areas are not exposed as edit
/// controls. A real caret is accepted as evidence of input for these only, since
/// other self-drawn programs keep a caret outside of any input field.
pub const CARET_COMPAT_APPS: [&'static str; 12] = [
    "chrome.exe",
    "msedge.exe",
    "firefox.exe",
    "Tabbit Browser.exe",
    "Feishu.exe",
    "Lark.exe",
    "wps.exe",
    "et.exe",
    "wpp.exe",
    "WINWORD.EXE",
    "EXCEL.EXE",
    "POWERPNT.EXE",
];

/// Design applications that draw the text cursor of the canvas themselves. `T`
/// selects their text tool; `Esc` and `Ctrl+Enter` leave the text.
pub const DESIGN_TEXT_SHORTCUT_APPS: [&'static str; 2] = ["Photoshop.exe", "Illustrator.exe"];

/// Applications whose caret is looked up through the window manager alone.
pub const GUI_ONLY_CARET_APPS: [&'static str; 2] = ["Photoshop.exe", "Illustrator.exe"];

/// Office applications whose documents and sheets are not exposed as edit controls.
pub const OFFICE_EDIT_APPS: [&'static str; 6] = [
    "wps.exe",
    "et.exe",
    "wpp.exe",
    "WINWORD.EXE",
    "EXCEL.EXE",
    "POWERPNT.EXE",
];

/// The spreadsheets among the office applications.
pub const OFFICE_SPREADSHEET_APPS: [&'static str; 2] = ["et.exe", "EXCEL.EXE"];

/// Chat applications that withdraw the caret for a moment while something is pasted.
pub const TRANSIENT_CARET_APPS: [&'static str; 5] = [
    "Weixin.exe",
    "WXWork.exe",
    "WeCom.exe",
    "Feishu.exe",
    "Lark.exe",
];

/// Some entry of `candidates` is `name` up to the case of ASCII letters.
pub open spec fn listed(name: Seq<char>, candidates: Seq<&str>) -> bool {
    exists|i: int|
        0 <= i < candidates.len() && text::same_ignoring_ascii_case(name, #[trigger] candidates[i]@)
}

/// Some entry of `candidates` is `name` up to the case of ASCII letters.
pub open spec fn listed_in(name: Seq<char>, candidates: Seq<String>) -> bool {
    exists|i: int|
        0 <= i < candidates.len() && text::same_ignoring_ascii_case(name, #[trigger] candidates[i]@)
}

/// The text of an optional string.
pub open spec fn opt_text(s: Option<&str>) -> Option<Seq<char>> {
    match s {
        Some(t) => Some(t@),
        None => None,
    }
}

/// Neither probed nor switched: a built-in application of that kind, or one
/// whose configured rule is `ignore`.
pub open spec fn shows_state_only(name: Seq<char>, rule: Option<Seq<char>>) -> bool {
    listed(name, INDICATOR_ONLY_APPS@) || rule == Some("ignore"@)
}

/// A name that is a single component of a path on every system.
pub open spec fn is_plain(name: Seq<char>) -> bool {
    &&& name.len() > 0
    &&& !name.contains('/') && !name.contains('\\') && !name.contains(':')
    &&& name != seq!['.'] && name != seq!['.', '.']
}

/// What stands behind the last slash in `path`.
pub open spec fn last_part(path: Seq<char>) -> Seq<char>
    decreases path.len(),
{
    if path.len() == 0 || path.last() == '/' {
        Seq::empty()
    } else {
        last_part(path.drop_last()).push(path.last())
    }
}

/// A slash of either kind.
pub open spec fn is_slash(c: char) -> bool {
    c == '/' || c == '\\'
}

/// The path begins with two slashes of either kind, as the path of a share does.
pub open spec fn is_share(path: Seq<char>) -> bool {
    path.len() >= 2 && is_slash(path[0]) && is_slash(path[1])
}

/// The components of the path are separated by slashes on every system.
pub open spec fn has_slashes_only(path: Seq<char>) -> bool {
    &&& !path.contains('\\')
    &&& !is_share(path)
    &&& !(path.len() >= 2 && path[1] == ':')
}

/// The file name at the end of a path with slashes only. Slashes and single dots at
/// the end are passed over; the directory above has no file name.
pub open spec fn file_name_of(path: Seq<char>) -> Option<Seq<char>>
    decreases path.len(),
{
    if path.len() == 0 || path == seq!['.'] || last_part(path) == seq!['.', '.'] {
        None
    } else if path.last() == '/' || last_part(path) == seq!['.'] {
        file_name_of(path.drop_last())
    } else {
        Some(last_part(path))
    }
}

/// Calls `Path::file_name`, which gives the last component of a path. Of a path with
/// slashes only this says which it is. Nothing is said of backslashes, drives and
/// shares: what they mean differs between systems.
#[verifier::external_body]
fn file_name(path: &str) -> (name: Option<String>)
    ensures
        has_slashes_only(path@) ==> text::opt_view(name) == file_name_of(path@),
{
    Path::new(path).file_name().and_then(|name| name.to_str()).map(str::to_string)
}

/// The path begins with a drive, such as `C:`.
pub open spec fn is_drive(path: Seq<char>) -> bool {
    &&& path.len() >= 2
    &&& ('a' <= path[0] && path[0] <= 'z') || ('A' <= path[0] && path[0] <= 'Z')
    &&& path[1] == ':'
}

/// The first slash of either kind at `from` or behind it, or the end of the path.
pub open spec fn slash_from(path: Seq<char>, from: nat) -> nat
    decreases path.len() - from,
{
    if from >= path.len() {
        path.len()
    } else if is_slash(path[from as int]) {
        from
    } else {
        slash_from(path, from + 1)
    }
}

/// The length of the drive, such as `C:`, or the share, such as `\\server\share`,
/// with which a path begins.
pub open spec fn prefix_len(path: Seq<char>) -> nat {
    if is_drive(path) {
        2
    } else if is_share(path) {
        let server = slash_from(path, 2);
        let share = slash_from(path, server + 1);
        if 2 < server && server + 1 < share {
            share
        } else {
            0
        }
    } else {
        0
    }
}

/// The character `c`, and a slash for a backslash.
pub open spec fn as_slash(c: char) -> char {
    if c == '\\' {
        '/'
    } else {
        c
    }
}

/// A path below the current directory that is written with slashes only.
pub open spec fn slashed(path: Seq<char>) -> Seq<char> {
    seq!['.', '/'] + Seq::new(path.len(), |i: int| as_slash(path[i]))
}

/// The path begins with `\\?\`, and is taken as it is written.
pub open spec fn is_verbatim(path: Seq<char>) -> bool {
    path.len() >= 4 && path[0] == '\\' && path[1] == '\\' && path[2] == '?' && path[3] == '\\'
}

/// A path that is taken as it is written, on a drive, and reads as it would without
/// the `\\?\` in front: it holds backslashes only and ends in a name.
pub open spec fn is_verbatim_file(path: Seq<char>) -> bool {
    &&& is_verbatim(path)
    &&& is_drive(path.skip(4))
    &&& path.len() > 6 && path[6] == '\\'
    &&& !path.contains('/')
    &&& path.last() != '\\' && path.last() != '.'
}

/// The path without the `\\?\` in front.
pub open spec fn ordinary(path: Seq<char>) -> Seq<char> {
    if is_verbatim(path) {
        path.skip(4)
    } else {
        path
    }
}

/// The name of the file at `path`: the last component behind the drive or the share.
pub open spec fn image_of(path: Seq<char>) -> Option<Seq<char>> {
    let whole = ordinary(path);
    file_name_of(slashed(whole.skip(prefix_len(whole) as int)))
}

fn slash_at(path: &Vec<char>, from: usize) -> (at: usize)
    ensures
        at == slash_from(path@, from as nat),
        at <= path.len(),
{
    let mut i: usize = from;
    while i < path.len()
        invariant
            slash_from(path@, i as nat) == slash_from(path@, from as nat),
        decreases path.len() - i,
    {
        if path[i] == '/' || path[i] == '\\' {
            return i;
        }
        i += 1;
    }
    path.len()
}

fn begins_with_drive(path: &Vec<char>) -> (yes: bool)
    ensures
        yes == is_drive(path@),
{
    path.len() >= 2 && (('a' <= path[0] && path[0] <= 'z') || ('A' <= path[0] && path[0] <= 'Z'))
        && path[1] == ':'
}

fn prefix_end(path: &Vec<char>) -> (end: usize)
    ensures
        end == prefix_len(path@),
        end <= path.len(),
{
    if begins_with_drive(path) {
        return 2;
    }
    if path.len() >= 2 && (path[0] == '/' || path[0] == '\\') && (path[1] == '/' || path[1]
        == '\\') {
        let server = slash_at(path, 2);
        if 2 < server && server < path.len() {
            let share = slash_at(path, server + 1);
            if server + 1 < share {
                return share;
            }
        }
    }
    0
}

/// The path behind `from`, below the current directory and with slashes only.
fn with_slashes(path: &str, from: usize) -> (whole: String)
    requires
        from <= path@.len(),
    ensures
        whole@ == slashed(path@.skip(from as int)),
{
    proof {
        reveal_strlit("./");
        reveal_strlit("/");
    }
    let ghost rest = path@.skip(from as int);
    let len: usize = path.unicode_len();
    let mut whole = String::new();
    whole.append("./");
    let mut i: usize = from;
    assert(whole@ =~= slashed(rest).take(2));
    while i < len
        invariant
            from <= i <= len,
            len == path@.len(),
            rest == path@.skip(from as int),
            "/"@ == seq!['/'],
            whole@ == slashed(rest).take(2 + i - from),
        decreases len - i,
    {
        if path.get_char(i) == '\\' {
            whole.append("/");
        } else {
            whole.append(path.substring_char(i, i + 1));
        }
        i += 1;
        assert(whole@ =~= slashed(rest).take(2 + i - from));
    }
    assert(whole@ =~= slashed(rest));
    whole
}

/// The name of the executable at `path`: its last component. The path is one of
/// Windows, and is brought into a form that reads the same on every system. Of a path
/// with `\\?\` in front that is not a plain one on a drive, the name is as the system
/// has it.
pub fn image_name(path: &str) -> (name: Option<String>)
    ensures
        !is_verbatim(path@) || is_verbatim_file(path@) ==> text::opt_view(name) == image_of(path@),
{
    let len: usize = path.unicode_len();
    let chars = text::chars_of(path);
    let mut whole = path;
    if len >= 4 && chars[0] == '\\' && chars[1] == '\\' && chars[2] == '?' && chars[3] == '\\' {
        whole = path.substring_char(4, len);
        assert(whole@ =~= path@.skip(4));
        let slash: usize = text::find_first(path, '/');
        proof {
            if path@.contains('/') {
                text::first_at_finds(path@, '/');
            } else {
                text::first_at_misses(path@, '/');
            }
        }
        if !(begins_with_drive(&text::chars_of(whole)) && len > 6 && chars[6] == '\\' && slash
            >= len && chars[len - 1] != '\\' && chars[len - 1] != '.') {
            return file_name(path);
        }
    }
    let from: usize = prefix_end(&text::chars_of(whole));
    let slashes = with_slashes(whole, from);
    file_name(slashes.as_str())
}

/// A name behind a slash is the last part of a path.
proof fn last_part_is_found(before: Seq<char>, name: Seq<char>)
    requires
        !name.contains('/'),
    ensures
        last_part(before + seq!['/'] + name) == name,
    decreases name.len(),
{
    let path = before + seq!['/'] + name;
    if name.len() > 0 {
        let head = name.drop_last();
        assert(forall|c: char| #[trigger] head.contains(c) ==> name.contains(c));
        assert(name.contains(name.last()));
        assert(path.drop_last() =~= before + seq!['/'] + head);
        last_part_is_found(before, head);
        assert(head.push(name.last()) =~= name);
    } else {
        assert(path.last() == '/');
        assert(last_part(path) =~= name);
    }
}

/// A plain name behind a backslash is the name of the file, wherever that stands.
proof fn the_name_is_found(path: Seq<char>, dir: Seq<char>, name: Seq<char>)
    requires
        is_plain(name),
        path == dir + seq!['\\'] + name,
        !is_verbatim(path),
        prefix_len(path) <= dir.len(),
    ensures
        image_of(path) == Some(name),
{
    let n = prefix_len(path) as int;
    let rest = path.skip(n);
    let below = slashed(dir.skip(n));
    assert(slashed(rest) =~= below + seq!['/'] + name) by {
        assert forall|i: int| 0 <= i < name.len() implies as_slash(name[i]) == name[i] by {
            assert(name.contains(name[i]));
        }
        assert(rest =~= dir.skip(n) + seq!['\\'] + name);
    }
    last_part_is_found(below, name);
    assert(slashed(rest).last() == name.last());
    assert(name.contains(name.last()));
}

/// A file on a drive, in whatever directory, has its own name.
pub proof fn a_file_on_a_drive_has_its_name(dir: Seq<char>, name: Seq<char>)
    requires
        is_drive(dir),
        is_plain(name),
    ensures
        image_of(dir + seq!['\\'] + name) == Some(name),
{
    let path = dir + seq!['\\'] + name;
    assert(path[0] == dir[0] && path[1] == dir[1]);
    the_name_is_found(path, dir, name);
}

/// There is no slash before the one that is found.
proof fn slash_is_first(path: Seq<char>, from: nat, at: nat)
    requires
        from <= at < path.len(),
        is_slash(path[at as int]),
        forall|i: int| from <= i < at ==> !is_slash(#[trigger] path[i]),
    ensures
        slash_from(path, from) == at,
    decreases at - from,
{
    if from < at {
        slash_is_first(path, from + 1, at);
    }
}

/// A file on a share, in whatever directory, has its own name.
pub proof fn a_file_on_a_share_has_its_name(
    server: Seq<char>,
    share: Seq<char>,
    dir: Seq<char>,
    name: Seq<char>,
)
    requires
        is_plain(server),
        is_plain(share),
        server != seq!['?'],
        dir.len() > 0 ==> dir[0] == '\\',
        is_plain(name),
    ensures
        image_of(
            seq!['\\', '\\'] + server + seq!['\\'] + share + dir + seq!['\\'] + name,
        ) == Some(name),
{
    let root = seq!['\\', '\\'] + server + seq!['\\'] + share;
    let path = root + dir + seq!['\\'] + name;
    let first = 2 + server.len();
    let second = root.len();
    assert forall|i: int| 2 <= i < first implies !is_slash(#[trigger] path[i]) by {
        assert(path[i] == server[i - 2]);
        assert(server.contains(server[i - 2]));
    }
    assert forall|i: int| first + 1 <= i < second implies !is_slash(#[trigger] path[i]) by {
        assert(path[i] == share[i - first - 1]);
        assert(share.contains(share[i - first - 1]));
    }
    assert(path[first as int] == '\\');
    assert(path[second as int] == '\\');
    slash_is_first(path, 2, first);
    slash_is_first(path, first + 1, second);
    assert(!is_verbatim(path)) by {
        if is_verbatim(path) {
            assert(path[2] == server[0]);
            if server.len() > 1 {
                assert(is_slash(path[3]));
            }
            assert(server =~= seq!['?']);
        }
    }
    assert(path[0] == '\\' && path[1] == '\\');
    the_name_is_found(path, root + dir, name);
}

/// Whether `process_name` is on the list `candidates`.
pub fn process_matches(process_name: &str, candidates: &[&str]) -> (found: bool)
    ensures
        found == listed(process_name@, candidates@),
{
    let mut i: usize = 0;
    while i < candidates.len()
        invariant
            i <= candidates.len(),
            forall|j: int|
                0 <= j < i ==> !text::same_ignoring_ascii_case(
                    process_name@,
                    #[trigger] candidates@[j]@,
                ),
        decreases candidates.len() - i,
    {
        if text::eq_ignore_ascii_case(process_name, candidates[i]) {
            return true;
        }
        i += 1;
    }
    false
}

/// Whether `process_name` is on the configured list `candidates`.
pub fn process_matches_any(process_name: &str, candidates: &Vec<String>) -> (found: bool)
    ensures
        found == listed_in(process_name@, candidates@),
{
    let mut i: usize = 0;
    while i < candidates.len()
        invariant
            i <= candidates.len(),
            forall|j: int|
                0 <= j < i ==> !text::same_ignoring_ascii_case(
                    process_name@,
                    #[trigger] candidates@[j]@,
                ),
        decreases candidates.len() - i,
    {
        if text::eq_ignore_ascii_case(process_name, candidates[i].as_str()) {
            return true;
        }
        i += 1;
    }
    false
}

/// Whether nothing but the state of the input method is to be read for
/// `process_name`, given the rule that the configuration holds for it.
pub fn process_is_indicator_only(process_name: &str, app_rule: Option<&str>) -> (yes: bool)
    ensures
        yes == shows_state_only(process_name@, opt_text(app_rule)),
{
    if process_matches(process_name, &INDICATOR_ONLY_APPS) {
        return true;
    }
    match app_rule {
        Some(rule) => text::same_text(rule, "ignore"),
        None => false,
    }
}

/// An application on one list is on another that repeats its entries.
proof fn lemma_listed_monotonic(name: Seq<char>, inner: Seq<&str>, outer: Seq<&str>)
    requires
        forall|i: int| 0 <= i < inner.len() ==> outer.contains(#[trigger] inner[i]),
        listed(name, inner),
    ensures
        listed(name, outer),
{
    let i = choose|i: int|
        0 <= i < inner.len() && text::same_ignoring_ascii_case(name, #[trigger] inner[i]@);
    let j = choose|j: int| 0 <= j < outer.len() && outer[j] == inner[i];
    assert(text::same_ignoring_ascii_case(name, outer[j]@));
}

/// No accessibility query is made for the design, video and office applications:
/// each of them is on the fast path.
pub proof fn special_apps_take_the_fast_path(name: Seq<char>)
    ensures
        listed(name, INDICATOR_ONLY_APPS@) ==> listed(name, CARET_FAST_PATH_APPS@),
        listed(name, DESIGN_TEXT_SHORTCUT_APPS@) ==> listed(name, CARET_FAST_PATH_APPS@),
        listed(name, OFFICE_EDIT_APPS@) ==> listed(name, CARET_FAST_PATH_APPS@),
{
    let fast = CARET_FAST_PATH_APPS@;
    assert(fast[3] == "Photoshop.exe" && fast[4] == "Illustrator.exe");
    assert(fast[5] == "Cinema 4D.exe" && fast[6] == "JianyingPro.exe" && fast[7] == "CapCut.exe");
    assert(fast[11] == "wps.exe" && fast[12] == "et.exe" && fast[13] == "wpp.exe");
    assert(fast[14] == "WINWORD.EXE" && fast[15] == "EXCEL.EXE" && fast[16] == "POWERPNT.EXE");
    if listed(name, INDICATOR_ONLY_APPS@) {
        lemma_listed_monotonic(name, INDICATOR_ONLY_APPS@, fast);
    }
    if listed(name, DESIGN_TEXT_SHORTCUT_APPS@) {
        lemma_listed_monotonic(name, DESIGN_TEXT_SHORTCUT_APPS@, fast);
    }
    if listed(name, OFFICE_EDIT_APPS@) {
        lemma_listed_monotonic(name, OFFICE_EDIT_APPS@, fast);
    }
}

/// Every spreadsheet is an office application, and every office application
/// accepts the caret as evidence of input.
pub proof fn office_lists_are_nested(name: Seq<char>)
    ensures
        listed(name, OFFICE_SPREADSHEET_APPS@) ==> listed(name, OFFICE_EDIT_APPS@),
        listed(name, OFFICE_EDIT_APPS@) ==> listed(name, CARET_COMPAT_APPS@),
{
    let office = OFFICE_EDIT_APPS@;
    let compat = CARET_COMPAT_APPS@;
    assert(office[1] == "et.exe" && office[4] == "EXCEL.EXE");
    assert(compat[6] == "wps.exe" && compat[7] == "et.exe" && compat[8] == "wpp.exe");
    assert(compat[9] == "WINWORD.EXE" && compat[10] == "EXCEL.EXE" && compat[11]
        == "POWERPNT.EXE");
    if listed(name, OFFICE_SPREADSHEET_APPS@) {
        lemma_listed_monotonic(name, OFFICE_SPREADSHEET_APPS@, office);
    }
    if listed(name, OFFICE_EDIT_APPS@) {
        lemma_listed_monotonic(name, OFFICE_EDIT_APPS@, compat);
    }
}

/// No chat is a design or office application.
pub proof fn chats_have_no_editing_mode(name: Seq<char>)
    requires
        listed(name, TRANSIENT_CARET_APPS@),
    ensures
        !listed(name, DESIGN_TEXT_SHORTCUT_APPS@),
        !listed(name, OFFICE_EDIT_APPS@),
{
    reveal_strlit("Weixin.exe");
    reveal_strlit("WXWork.exe");
    reveal_strlit("WeCom.exe");
    reveal_strlit("Feishu.exe");
    reveal_strlit("Lark.exe");
    reveal_strlit("Photoshop.exe");
    reveal_strlit("Illustrator.exe");
    reveal_strlit("wps.exe");
    reveal_strlit("et.exe");
    reveal_strlit("wpp.exe");
    reveal_strlit("WINWORD.EXE");
    reveal_strlit("EXCEL.EXE");
    reveal_strlit("POWERPNT.EXE");
    let i = choose|i: int|
        0 <= i < TRANSIENT_CARET_APPS@.len() && text::same_ignoring_ascii_case(
            name,
            #[trigger] TRANSIENT_CARET_APPS@[i]@,
        );
    assert(name.len() == 10 || name.len() == 9 || name.len() == 8);
    assert(name.len() == 9 ==> i == 2);
    assert(name.len() == 9 ==> text::ascii_fold(name[0]) == text::ascii_fold('W'));
    if listed(name, DESIGN_TEXT_SHORTCUT_APPS@) {
        let j = choose|j: int|
            0 <= j < DESIGN_TEXT_SHORTCUT_APPS@.len() && text::same_ignoring_ascii_case(
                name,
                #[trigger] DESIGN_TEXT_SHORTCUT_APPS@[j]@,
            );
        assert(name.len() == 13 || name.len() == 15);
    }
    if listed(name, OFFICE_EDIT_APPS@) {
        let j = choose|j: int|
            0 <= j < OFFICE_EDIT_APPS@.len() && text::same_ignoring_ascii_case(
                name,
                #[trigger] OFFICE_EDIT_APPS@[j]@,
            );
        assert(name.len() == 9 ==> j == 4);
        assert(name.len() == 9 ==> text::ascii_fold(name[0]) == text::ascii_fold('E'));
    }
}

/// A bare share has no name.
pub proof fn a_bare_share_has_no_name(server: Seq<char>, share: Seq<char>)
    requires
        is_plain(server),
        is_plain(share),
        server != seq!['?'],
    ensures
        image_of(seq!['\\', '\\'] + server + seq!['\\'] + share) is None,
{
    let path = seq!['\\', '\\'] + server + seq!['\\'] + share;
    let first = 2 + server.len();
    assert forall|i: int| 2 <= i < first implies !is_slash(#[trigger] path[i]) by {
        assert(path[i] == server[i - 2]);
        assert(server.contains(server[i - 2]));
    }
    assert forall|i: int| first + 1 <= i < path.len() implies !is_slash(#[trigger] path[i]) by {
        assert(path[i] == share[i - first - 1]);
        assert(share.contains(share[i - first - 1]));
    }
    assert(path[first as int] == '\\');
    slash_is_first(path, 2, first);
    no_slash_is_found(path, first + 1);
    assert(!is_verbatim(path)) by {
        if is_verbatim(path) {
            assert(path[2] == server[0]);
            if server.len() > 1 {
                assert(is_slash(path[3]));
            }
            assert(server =~= seq!['?']);
        }
    }
    assert(path[0] == '\\' && path[1] == '\\');
    let rest = path.skip(path.len() as int);
    assert(slashed(rest) =~= seq!['.', '/']);
    assert(seq!['.', '/'].drop_last() =~= seq!['.']);
    reveal_with_fuel(file_name_of, 3);
    assert(last_part(seq!['.', '/']) =~= Seq::empty());
}

/// Where no slash is left, the end is found.
proof fn no_slash_is_found(path: Seq<char>, from: nat)
    requires
        from <= path.len(),
        forall|i: int| from <= i < path.len() ==> !is_slash(#[trigger] path[i]),
    ensures
        slash_from(path, from) == path.len(),
    decreases path.len() - from,
{
    if from < path.len() {
        no_slash_is_found(path, from + 1);
    }
}

/// A path that is taken as it is written names the file that it names without the mark
/// in front.
pub proof fn the_mark_in_front_changes_no_name(path: Seq<char>)
    requires
        !is_verbatim(path),
    ensures
        image_of(seq!['\\', '\\', '?', '\\'] + path) == image_of(path),
{
    assert((seq!['\\', '\\', '?', '\\'] + path).skip(4) =~= path);
}

} // verus!
