//! The list of running applications.

use vstd::prelude::*;

use crate::processes;
use crate::text;
use std::path::Path;

verus! {

/// An application with a window.
#[derive(Debug, PartialEq, Eq)]
pub struct RunningApp {
    pub exe_name: String,
    pub display_name: String,
    pub exe_path: String,
}

impl Clone for RunningApp {
    fn clone(&self) -> (copy: Self)
        ensures
            copy == *self,
    {
        RunningApp {
            exe_name: self.exe_name.clone(),
            display_name: self.display_name.clone(),
            exe_path: self.exe_path.clone(),
        }
    }
}

/// What `str::to_lowercase` makes of a text.
pub uninterp spec fn lowercase(s: Seq<char>) -> Seq<char>;

/// Calls `str::to_lowercase`, which maps every character by the Unicode tables of
/// the standard library. Its result depends on the text alone; what it is remains
/// unsaid.
#[verifier::external_body]
fn to_lowercase(s: &str) -> (lower: String)
    ensures
        lower@ == lowercase(s@),
{
    s.to_lowercase()
}

/// The place of the last dot in `name`, or `-1`.
pub open spec fn last_dot(name: Seq<char>) -> int
    decreases name.len(),
{
    if name.len() == 0 {
        -1
    } else if name.last() == '.' {
        name.len() - 1
    } else {
        last_dot(name.drop_last())
    }
}

/// `name` without its extension: what stands before the last dot. A dot at the
/// beginning does not start an extension.
pub open spec fn stem(name: Seq<char>) -> Seq<char> {
    if last_dot(name) <= 0 {
        name
    } else {
        name.take(last_dot(name))
    }
}

/// `part` stands in `whole`.
pub open spec fn is_part(part: Seq<char>, whole: Seq<char>) -> bool {
    exists|i: int, j: int| 0 <= i <= j <= whole.len() && #[trigger] whole.subrange(i, j) == part
}

/// The name is no file name on any system: it is empty or leads to the directory above.
pub open spec fn is_no_file(name: Seq<char>) -> bool {
    name.len() == 0 || name == seq!['.', '.']
}

/// Calls `Path::file_stem`. A plain name has the stem that its documentation
/// describes, and where there is no file name there is no stem. A stem is always a
/// portion of the name. What separates the components of a path differs between
/// systems, so which portion it is remains unsaid of other names.
#[verifier::external_body]
fn file_stem(name: &str) -> (found: Option<String>)
    ensures
        processes::is_plain(name@) ==> found is Some && found->0@ == stem(name@),
        is_no_file(name@) ==> found is None,
        found is Some ==> is_part(found->0@, name@),
{
    Path::new(name).file_stem().and_then(|s| s.to_str()).map(str::to_string)
}

/// What is shown of an application whose file stem is `found`.
pub open spec fn shown_name(found: Option<Seq<char>>, exe_name: Seq<char>) -> Seq<char> {
    match found {
        Some(s) if s.len() > 0 => s,
        _ => exe_name,
    }
}

/// What is shown of an application: the stem that was found, or else its name.
pub fn name_or_stem(found: Option<String>, exe_name: &str) -> (shown: String)
    ensures
        shown@ == shown_name(
            match found {
                Some(s) => Some(s@),
                None => None,
            },
            exe_name@,
        ),
{
    if let Some(s) = found {
        if s.as_str().unicode_len() > 0 {
            return s;
        }
    }
    let mut copy = String::new();
    copy.append(exe_name);
    assert(copy@ =~= exe_name@);
    copy
}

/// A plain name has a stem of some length.
proof fn stems_are_not_empty(name: Seq<char>)
    requires
        name.len() > 0,
    ensures
        stem(name).len() > 0,
{
    last_dot_is_an_index(name);
}

proof fn last_dot_is_an_index(name: Seq<char>)
    ensures
        -1 <= last_dot(name) < name.len(),
    decreases name.len(),
{
    if name.len() > 0 && name.last() != '.' {
        last_dot_is_an_index(name.drop_last());
    }
}

/// What is shown of the application with the executable `exe_name`: its name
/// without the extension. Where there is no file name, it is shown as it is. Of names
/// with a separator or a colon some portion is shown.
pub fn process_display_name(exe_name: &str) -> (shown: String)
    ensures
        processes::is_plain(exe_name@) ==> shown@ == stem(exe_name@),
        is_no_file(exe_name@) ==> shown@ == exe_name@,
        is_part(shown@, exe_name@),
        exe_name@.len() > 0 ==> shown@.len() > 0,
{
    assert(exe_name@.subrange(0, exe_name@.len() as int) =~= exe_name@);
    proof {
        if processes::is_plain(exe_name@) {
            stems_are_not_empty(exe_name@);
        }
    }
    name_or_stem(file_stem(exe_name), exe_name)
}

/// A window stands for a running application: it is visible and has a title, and
/// it belongs to another process.
pub open spec fn stands_for_app(
    visible: bool,
    title_len: i32,
    process_id: u32,
    own_process_id: u32,
) -> bool {
    visible && title_len > 0 && process_id != 0 && process_id != own_process_id
}

/// Whether a window stands for a running application.
pub fn is_app_window(
    visible: bool,
    title_len: i32,
    process_id: u32,
    own_process_id: u32,
) -> (yes: bool)
    ensures
        yes == stands_for_app(visible, title_len, process_id, own_process_id),
{
    visible && title_len > 0 && process_id != 0 && process_id != own_process_id
}

/// The application with the executable `exe_name` at `exe_path`.
pub fn running_app(exe_name: String, exe_path: String) -> (app: RunningApp)
    ensures
        app.exe_name@ == exe_name@,
        app.exe_path@ == exe_path@,
        processes::is_plain(exe_name@) ==> app.display_name@ == stem(exe_name@),
        is_no_file(exe_name@) ==> app.display_name@ == exe_name@,
        is_part(app.display_name@, exe_name@),
        exe_name@.len() > 0 ==> app.display_name@.len() > 0,
{
    let display_name = process_display_name(exe_name.as_str());
    RunningApp { exe_name, display_name, exe_path }
}

/// What makes two applications the same: their executables up to case.
pub open spec fn exe_key(app: RunningApp) -> Seq<char> {
    lowercase(app.exe_name@)
}

/// What the list is ordered by: what is shown, up to case.
pub open spec fn sort_key(app: RunningApp) -> Seq<char> {
    lowercase(app.display_name@)
}

/// Some application of `apps` is the same as `app`.
pub open spec fn has_same(apps: Seq<RunningApp>, app: RunningApp) -> bool {
    exists|i: int| 0 <= i < apps.len() && exe_key(#[trigger] apps[i]) == exe_key(app)
}

/// The first of each application in `apps`.
pub open spec fn first_of_each(apps: Seq<RunningApp>) -> Seq<RunningApp>
    decreases apps.len(),
{
    if apps.len() == 0 {
        Seq::empty()
    } else {
        let kept = first_of_each(apps.drop_last());
        if has_same(apps.drop_last(), apps.last()) {
            kept
        } else {
            kept.push(apps.last())
        }
    }
}

/// The applications that are ordered by the key `k`.
pub open spec fn ordered_by(k: Seq<char>) -> spec_fn(RunningApp) -> bool {
    |app: RunningApp| sort_key(app) == k
}

/// The list `apps` is in order.
pub open spec fn in_order(apps: Seq<RunningApp>) -> bool {
    forall|i: int, j: int|
        0 <= i <= j < apps.len() ==> text::no_later(
            sort_key(#[trigger] apps[i]),
            sort_key(#[trigger] apps[j]),
        )
}

/// The list `sorted` holds what `apps` holds, where applications with the same key
/// keep their order.
pub open spec fn keeps_order(sorted: Seq<RunningApp>, apps: Seq<RunningApp>) -> bool {
    &&& sorted.to_multiset() == apps.to_multiset()
    &&& forall|k: Seq<char>| #[trigger]
        sorted.filter(ordered_by(k)) == apps.filter(ordered_by(k))
}

/// The first of each application in `apps`.
fn without_repeats(apps: &Vec<RunningApp>) -> (kept: Vec<RunningApp>)
    ensures
        kept@ == first_of_each(apps@),
{
    let mut kept: Vec<RunningApp> = Vec::new();
    let mut seen: Vec<String> = Vec::new();
    let mut i: usize = 0;
    assert(apps@.take(0) =~= Seq::empty());
    while i < apps.len()
        invariant
            i <= apps.len(),
            seen.len() == i,
            forall|j: int| 0 <= j < i ==> (#[trigger] seen@[j])@ == exe_key(apps@[j]),
            kept@ == first_of_each(apps@.take(i as int)),
        decreases apps.len() - i,
    {
        let key = to_lowercase(apps[i].exe_name.as_str());
        let ghost before = apps@.take(i as int);
        let mut found = false;
        let mut j: usize = 0;
        while j < seen.len() && !found
            invariant
                j <= seen.len(),
                seen.len() == i,
                i < apps.len(),
                before == apps@.take(i as int),
                key@ == exe_key(apps@[i as int]),
                forall|l: int| 0 <= l < i ==> (#[trigger] seen@[l])@ == exe_key(apps@[l]),
                !found ==> forall|l: int| 0 <= l < j ==> exe_key(#[trigger] before[l]) != key@,
                found ==> has_same(before, apps@[i as int]),
            decreases seen.len() - j,
        {
            if text::same_text(seen[j].as_str(), key.as_str()) {
                assert(exe_key(before[j as int]) == exe_key(apps@[i as int]));
                found = true;
            } else {
                assert(seen@[j as int]@ == exe_key(before[j as int]));
            }
            j += 1;
        }
        assert(apps@.take(i + 1).drop_last() =~= before);
        assert(apps@.take(i + 1).last() == apps@[i as int]);
        if !found {
            kept.push(apps[i].clone());
        }
        seen.push(key);
        i += 1;
    }
    assert(apps@.take(i as int) =~= apps@);
    kept
}

/// Putting `app` at `p` into a list in order leaves it in order, behind the
/// applications with its key.
proof fn insertion_keeps_order(
    sorted: Seq<RunningApp>,
    apps: Seq<RunningApp>,
    app: RunningApp,
    p: int,
)
    requires
        0 <= p <= sorted.len(),
        in_order(sorted),
        keeps_order(sorted, apps),
        forall|j: int|
            0 <= j < p ==> text::no_later(sort_key(#[trigger] sorted[j]), sort_key(app)),
        p < sorted.len() ==> !text::no_later(sort_key(sorted[p]), sort_key(app)),
    ensures
        in_order(sorted.insert(p, app)),
        keeps_order(sorted.insert(p, app), apps.push(app)),
{
    let result = sorted.insert(p, app);
    let head = sorted.take(p);
    let tail = sorted.skip(p);
    assert forall|j: int| p <= j < sorted.len() implies !text::no_later(
        sort_key(#[trigger] sorted[j]),
        sort_key(app),
    ) by {
        if text::no_later(sort_key(sorted[j]), sort_key(app)) {
            assert(text::no_later(sort_key(sorted[p]), sort_key(sorted[j])));
            text::order_is_transitive(sort_key(sorted[p]), sort_key(sorted[j]), sort_key(app));
        }
    }
    assert forall|i: int, j: int| 0 <= i <= j < result.len() implies text::no_later(
        sort_key(#[trigger] result[i]),
        sort_key(#[trigger] result[j]),
    ) by {
        let at = |n: int| if n < p { n } else { n - 1 };
        if i == p && j == p {
            text::texts_are_ordered(sort_key(app), sort_key(app));
        } else if i == p {
            assert(result[j] == sorted[j - 1]);
            text::texts_are_ordered(sort_key(app), sort_key(sorted[j - 1]));
        } else if j == p {
            assert(result[i] == sorted[i]);
        } else {
            assert(result[i] == sorted[at(i)]);
            assert(result[j] == sorted[at(j)]);
        }
    }
    vstd::seq_lib::to_multiset_insert(sorted, p, app);
    vstd::seq_lib::to_multiset_build(apps, app);
    assert(result =~= head.push(app) + tail);
    assert(sorted =~= head + tail);
    assert forall|k: Seq<char>| #[trigger]
        result.filter(ordered_by(k)) == apps.push(app).filter(ordered_by(k)) by {
        let pred = ordered_by(k);
        reveal(Seq::filter);
        Seq::filter_distributes_over_add(head.push(app), tail, pred);
        Seq::filter_distributes_over_add(head, tail, pred);
        assert(head.push(app).drop_last() =~= head);
        assert(apps.push(app).drop_last() =~= apps);
        assert(sorted.filter(pred) == apps.filter(pred));
        if sort_key(app) == k {
            assert forall|j: int| 0 <= j < tail.len() implies !pred(#[trigger] tail[j]) by {
                assert(tail[j] == sorted[p + j]);
                text::texts_are_ordered(sort_key(app), sort_key(app));
            }
            nothing_is_filtered(tail, pred);
            assert(result.filter(pred) =~= head.filter(pred).push(app));
            assert(sorted.filter(pred) =~= head.filter(pred));
        }
    }
}

/// Nothing is left of a list whose items are all left out.
proof fn nothing_is_filtered(apps: Seq<RunningApp>, pred: spec_fn(RunningApp) -> bool)
    requires
        forall|j: int| 0 <= j < apps.len() ==> !pred(#[trigger] apps[j]),
    ensures
        apps.filter(pred) == Seq::<RunningApp>::empty(),
    decreases apps.len(),
{
    reveal(Seq::filter);
    if apps.len() > 0 {
        assert(!pred(apps[apps.len() - 1]));
        assert forall|j: int| 0 <= j < apps.drop_last().len() implies !pred(
            #[trigger] apps.drop_last()[j],
        ) by {
            assert(!pred(apps[j]));
        }
        nothing_is_filtered(apps.drop_last(), pred);
    }
}

/// The applications of `apps` in order.
fn sort_by_display_name(apps: &Vec<RunningApp>) -> (sorted: Vec<RunningApp>)
    ensures
        in_order(sorted@),
        keeps_order(sorted@, apps@),
{
    let mut sorted: Vec<RunningApp> = Vec::new();
    let mut keys: Vec<String> = Vec::new();
    let mut i: usize = 0;
    assert(apps@.take(0) =~= sorted@);
    while i < apps.len()
        invariant
            i <= apps.len(),
            sorted.len() == i,
            keys.len() == i,
            forall|j: int| 0 <= j < i ==> (#[trigger] keys@[j])@ == sort_key(sorted@[j]),
            in_order(sorted@),
            keeps_order(sorted@, apps@.take(i as int)),
        decreases apps.len() - i,
    {
        let key = to_lowercase(apps[i].display_name.as_str());
        let mut p: usize = 0;
        while p < keys.len() && text::comes_no_later(keys[p].as_str(), key.as_str())
            invariant
                p <= keys.len(),
                keys.len() == sorted.len(),
                forall|j: int|
                    0 <= j < keys.len() ==> (#[trigger] keys@[j])@ == sort_key(sorted@[j]),
                forall|j: int|
                    0 <= j < p ==> text::no_later(sort_key(#[trigger] sorted@[j]), key@),
            ensures
                p <= keys.len(),
                keys.len() == sorted.len(),
                forall|j: int|
                    0 <= j < p ==> text::no_later(sort_key(#[trigger] sorted@[j]), key@),
                p < keys.len() ==> !text::no_later(sort_key(sorted@[p as int]), key@),
            decreases keys.len() - p,
        {
            assert(keys@[p as int]@ == sort_key(sorted@[p as int]));
            p += 1;
        }
        proof {
            insertion_keeps_order(sorted@, apps@.take(i as int), apps@[i as int], p as int);
            assert(apps@.take(i as int).push(apps@[i as int]) =~= apps@.take(i + 1));
        }
        sorted.insert(p, apps[i].clone());
        keys.insert(p, key);
        i += 1;
    }
    assert(apps@.take(i as int) =~= apps@);
    sorted
}

/// The list of the running applications that were found: the first of each, in the
/// order of what is shown of them. Those that are shown alike stay in the order in
/// which they were found.
pub fn enumerate_running_apps(found: &Vec<RunningApp>) -> (apps: Vec<RunningApp>)
    ensures
        in_order(apps@),
        keeps_order(apps@, first_of_each(found@)),
{
    let kept = without_repeats(found);
    sort_by_display_name(&kept)
}

/// The first of each application are all different, and stand for all that were
/// found.
proof fn first_of_each_are_different(found: Seq<RunningApp>)
    ensures
        forall|i: int, j: int|
            0 <= i < j < first_of_each(found).len() ==> exe_key(
                #[trigger] first_of_each(found)[i],
            ) != exe_key(#[trigger] first_of_each(found)[j]),
        forall|i: int|
            0 <= i < found.len() ==> has_same(first_of_each(found), #[trigger] found[i]),
        forall|i: int|
            0 <= i < first_of_each(found).len() ==> found.contains(
                #[trigger] first_of_each(found)[i],
            ),
    decreases found.len(),
{
    if found.len() > 0 {
        let before = found.drop_last();
        let last = found.last();
        let kept = first_of_each(before);
        first_of_each_are_different(before);
        assert forall|i: int| 0 <= i < kept.len() implies found.contains(#[trigger] kept[i]) by {
            assert(before.contains(kept[i]));
            let at = choose|at: int| 0 <= at < before.len() && before[at] == kept[i];
            assert(found[at] == kept[i]);
        }
        assert(found[found.len() - 1] == last);
        if has_same(before, last) {
            let at = choose|at: int|
                0 <= at < before.len() && exe_key(#[trigger] before[at]) == exe_key(last);
            assert(has_same(kept, before[at]));
            assert forall|i: int| 0 <= i < found.len() implies has_same(
                kept,
                #[trigger] found[i],
            ) by {
                if i < before.len() {
                    assert(found[i] == before[i]);
                }
            }
        } else {
            let all = kept.push(last);
            assert forall|i: int| 0 <= i < kept.len() implies exe_key(#[trigger] kept[i])
                != exe_key(last) by {
                assert(before.contains(kept[i]));
                let at = choose|at: int| 0 <= at < before.len() && before[at] == kept[i];
                assert(exe_key(before[at]) != exe_key(last));
            }
            assert forall|i: int| 0 <= i < found.len() implies has_same(
                all,
                #[trigger] found[i],
            ) by {
                if i < before.len() {
                    assert(found[i] == before[i]);
                    assert(has_same(kept, before[i]));
                    let at = choose|at: int|
                        0 <= at < kept.len() && exe_key(#[trigger] kept[at]) == exe_key(before[i]);
                    assert(all[at] == kept[at]);
                } else {
                    assert(all[kept.len() as int] == last);
                }
            }
            assert forall|i: int, j: int| 0 <= i < j < all.len() implies exe_key(
                #[trigger] all[i],
            ) != exe_key(#[trigger] all[j]) by {
                assert(all[i] == kept[i]);
                if j < kept.len() {
                    assert(all[j] == kept[j]);
                }
            }
        }
    }
}

/// Each running application is listed once, and nothing else is.
pub proof fn each_application_is_listed_once(found: Seq<RunningApp>, apps: Seq<RunningApp>)
    requires
        keeps_order(apps, first_of_each(found)),
    ensures
        forall|i: int, j: int|
            0 <= i < j < apps.len() ==> exe_key(#[trigger] apps[i]) != exe_key(
                #[trigger] apps[j],
            ),
        forall|i: int| 0 <= i < found.len() ==> has_same(apps, #[trigger] found[i]),
        forall|i: int| 0 <= i < apps.len() ==> found.contains(#[trigger] apps[i]),
{
    let kept = first_of_each(found);
    first_of_each_are_different(found);
    assert(kept.no_duplicates());
    kept.lemma_multiset_has_no_duplicates();
    apps.lemma_multiset_has_no_duplicates_conv();
    assert forall|app: RunningApp| #[trigger] apps.contains(app) == kept.contains(app) by {
        vstd::seq_lib::to_multiset_contains(apps, app);
        vstd::seq_lib::to_multiset_contains(kept, app);
    }
    assert forall|i: int| 0 <= i < apps.len() implies found.contains(#[trigger] apps[i]) by {
        assert(apps.contains(apps[i]));
        let at = choose|at: int| 0 <= at < kept.len() && kept[at] == apps[i];
        assert(found.contains(kept[at]));
    }
    assert forall|i: int| 0 <= i < found.len() implies has_same(apps, #[trigger] found[i]) by {
        assert(has_same(kept, found[i]));
        let at = choose|at: int|
            0 <= at < kept.len() && exe_key(#[trigger] kept[at]) == exe_key(found[i]);
        assert(kept.contains(kept[at]));
        assert(apps.contains(kept[at]));
    }
    assert forall|i: int, j: int| 0 <= i < j < apps.len() implies exe_key(#[trigger] apps[i])
        != exe_key(#[trigger] apps[j]) by {
        assert(apps.contains(apps[i]) && apps.contains(apps[j]));
        let a = choose|a: int| 0 <= a < kept.len() && kept[a] == apps[i];
        let b = choose|b: int| 0 <= b < kept.len() && kept[b] == apps[j];
        assert(apps[i] != apps[j]);
        if a < b {
            assert(exe_key(kept[a]) != exe_key(kept[b]));
        } else {
            assert(exe_key(kept[b]) != exe_key(kept[a]));
        }
    }
}

} // verus!
