//! Identities of focused elements.
//!
//! An identity tells one focused element from another. It is made of handles and
//! accessibility identifiers only, so it stays the same while the caret moves
//! within one element.

use vstd::prelude::*;

use crate::text;

verus! {

/// What an accessibility query tells of the value of an element.
#[derive(Debug, Clone, Copy, PartialEq, Eq, Structural)]
pub enum ValueAccess {
    /// The element has no value.
    NoValue,
    ReadOnly,
    Writable,
    /// The query failed, so nothing is known.
    Unknown,
}

/// What an accessibility query tells of the focused element.
pub struct FocusedElement {
    pub control_type: i32,
    pub password: bool,
    pub value: ValueAccess,
    pub native_hwnd: usize,
    /// The identifier of the element within the session, when it has one.
    pub runtime_id: Option<Vec<i32>>,
    pub automation_id: String,
    pub left: i32,
    pub top: i32,
    pub right: i32,
    pub bottom: i32,
}

/// The identity of a window that tells nothing of its elements: both handles.
pub open spec fn window_identity(foreground: usize, focused: usize) -> Seq<char> {
    text::decimal(foreground as nat) + seq![':'] + text::decimal(focused as nat)
}

/// The first `n` numbers of `ids`, separated by commas.
pub open spec fn joined(ids: Seq<i32>, n: nat) -> Seq<char>
    decreases n,
{
    if n == 0 {
        Seq::empty()
    } else if n == 1 {
        text::signed_decimal(ids[0] as int)
    } else {
        joined(ids, (n - 1) as nat) + seq![',', ' '] + text::signed_decimal(ids[n - 1] as int)
    }
}

/// The list `ids` in square brackets.
pub open spec fn bracketed(ids: Seq<i32>) -> Seq<char> {
    seq!['['] + joined(ids, ids.len()) + seq![']']
}

/// The handles and the control type, which begin the identity of every element.
pub open spec fn element_prefix(foreground: usize, el: FocusedElement) -> Seq<char> {
    window_identity(foreground, el.native_hwnd) + seq![':'] + text::signed_decimal(
        el.control_type as int,
    )
}

/// `number` with a colon before it.
pub open spec fn colon_number(number: i32) -> Seq<char> {
    seq![':'] + text::signed_decimal(number as int)
}

/// The identity of an element: its runtime identifier, or else its automation
/// identifier and its place on the screen.
pub open spec fn element_identity(foreground: usize, el: FocusedElement) -> Seq<char> {
    element_prefix(foreground, el) + seq![':'] + match el.runtime_id {
        Some(ids) => bracketed(ids@),
        None => el.automation_id@ + colon_number(el.left) + colon_number(el.top) + colon_number(
            el.right,
        ) + colon_number(el.bottom),
    }
}

fn push_colon(out: &mut String)
    ensures
        final(out)@ == old(out)@ + seq![':'],
{
    proof {
        reveal_strlit(":");
    }
    assert(":"@ =~= seq![':']);
    out.append(":");
}

fn push_colon_number(out: &mut String, number: i32)
    ensures
        final(out)@ == old(out)@ + colon_number(number),
{
    push_colon(out);
    text::push_signed_decimal(out, number);
    assert(out@ =~= old(out)@ + colon_number(number));
}

fn push_bracketed(out: &mut String, ids: &Vec<i32>)
    ensures
        final(out)@ == old(out)@ + bracketed(ids@),
{
    proof {
        reveal_strlit("[");
        reveal_strlit("]");
        reveal_strlit(", ");
    }
    assert("["@ =~= seq!['[']);
    assert("]"@ =~= seq![']']);
    assert(", "@ =~= seq![',', ' ']);
    out.append("[");
    assert(out@ =~= old(out)@ + seq!['['] + joined(ids@, 0));
    let mut i: usize = 0;
    while i < ids.len()
        invariant
            i <= ids.len(),
            ", "@ == seq![',', ' '],
            out@ == old(out)@ + seq!['['] + joined(ids@, i as nat),
        decreases ids.len() - i,
    {
        let ghost before = out@;
        if i > 0 {
            out.append(", ");
        }
        text::push_signed_decimal(out, ids[i]);
        i += 1;
        assert(out@ =~= old(out)@ + seq!['['] + joined(ids@, i as nat));
    }
    out.append("]");
    assert(out@ =~= old(out)@ + bracketed(ids@));
}

/// The identity of a window that tells nothing of its elements.
pub fn identity_of_window(foreground: usize, focused: usize) -> (identity: String)
    ensures
        identity@ == window_identity(foreground, focused),
{
    let mut out = String::new();
    text::push_decimal(&mut out, foreground);
    push_colon(&mut out);
    text::push_decimal(&mut out, focused);
    assert(out@ =~= window_identity(foreground, focused));
    out
}

/// The identity of the element `el` of the window `foreground`.
pub fn identity_of_element(foreground: usize, el: &FocusedElement) -> (identity: String)
    ensures
        identity@ == element_identity(foreground, *el),
{
    let mut out = identity_of_window(foreground, el.native_hwnd);
    push_colon_number(&mut out, el.control_type);
    assert(out@ =~= element_prefix(foreground, *el));
    push_colon(&mut out);
    match &el.runtime_id {
        Some(ids) => {
            push_bracketed(&mut out, ids);
        },
        None => {
            out.append(el.automation_id.as_str());
            push_colon_number(&mut out, el.left);
            push_colon_number(&mut out, el.top);
            push_colon_number(&mut out, el.right);
            push_colon_number(&mut out, el.bottom);
        },
    }
    assert(out@ =~= element_identity(foreground, *el));
    out
}

/// The number of indices from `lower` to `upper`, where there are any.
pub open spec fn indices(lower: int, upper: int) -> Option<int> {
    if lower <= upper {
        Some(upper - lower + 1)
    } else {
        None
    }
}

/// The indices from `lower` on that are counted are those up to `upper`.
pub proof fn every_index_is_counted(lower: int, upper: int, i: int)
    ensures
        indices(lower, upper) is None <==> upper < lower,
        indices(lower, upper) matches Some(n) ==> n > 0 && (0 <= i < n <==> lower <= lower + i
            <= upper),
{
}

/// The number of parts of a runtime identifier whose first and last index are
/// `lower` and `upper`; none when it is empty.
pub fn runtime_id_len(lower: i32, upper: i32) -> (len: Option<usize>)
    requires
        upper - lower < i32::MAX,
    ensures
        len is Some <==> lower <= upper,
        len matches Some(n) ==> n == upper - lower + 1,
        indices(lower as int, upper as int) == (match len {
            Some(n) => Some(n as int),
            None => None,
        }),
{
    if upper < lower {
        return None;
    }
    Some((upper - lower + 1) as usize)
}

/// A window's identity tells the window in front and the focused window.
pub proof fn window_identities_differ(
    foreground: usize,
    focused: usize,
    other_foreground: usize,
    other_focused: usize,
)
    requires
        window_identity(foreground, focused) == window_identity(other_foreground, other_focused),
    ensures
        foreground == other_foreground,
        focused == other_focused,
{
    text::numerals_hold_digits(foreground as nat, 10);
    text::numerals_hold_digits(other_foreground as nat, 10);
    text::first_mark_splits(
        text::decimal(foreground as nat),
        text::decimal(focused as nat),
        text::decimal(other_foreground as nat),
        text::decimal(other_focused as nat),
        ':',
    );
    text::numerals_differ(foreground as nat, other_foreground as nat, 10);
    text::numerals_differ(focused as nat, other_focused as nat, 10);
}

/// A list of one number holds no comma, and a longer one does.
proof fn longer_lists_hold_commas(ids: Seq<i32>, n: nat)
    requires
        0 < n <= ids.len(),
    ensures
        joined(ids, n).len() > 0,
        n == 1 ==> forall|i: int|
            0 <= i < joined(ids, n).len() ==> #[trigger] joined(ids, n)[i] != ',',
        n > 1 ==> exists|i: int|
            0 <= i < joined(ids, n).len() && #[trigger] joined(ids, n)[i] == ',',
{
    text::signed_decimals_hold_digits(ids[n - 1] as int);
    if n > 1 {
        let before = joined(ids, (n - 1) as nat);
        assert(joined(ids, n)[before.len() as int] == ',');
    }
}

/// Different lists are written differently.
proof fn joined_lists_differ(ids: Seq<i32>, n: nat, others: Seq<i32>, m: nat)
    requires
        n <= ids.len(),
        m <= others.len(),
        joined(ids, n) == joined(others, m),
    ensures
        n == m,
        ids.take(n as int) == others.take(m as int),
    decreases n,
{
    if n > 0 {
        longer_lists_hold_commas(ids, n);
    }
    if m > 0 {
        longer_lists_hold_commas(others, m);
    }
    if n == 1 {
        assert(m == 1);
        text::signed_decimals_differ(ids[0] as int, others[0] as int);
    } else if n > 1 {
        assert(m > 1);
        let head = joined(ids, (n - 1) as nat);
        let other_head = joined(others, (m - 1) as nat);
        let last = text::signed_decimal(ids[n - 1] as int);
        let other_last = text::signed_decimal(others[m - 1] as int);
        text::signed_decimals_hold_digits(ids[n - 1] as int);
        text::signed_decimals_hold_digits(others[m - 1] as int);
        assert(joined(ids, n) =~= head.push(',') + seq![' '] + last);
        assert(joined(others, m) =~= other_head.push(',') + seq![' '] + other_last);
        text::last_mark_splits(head.push(','), last, other_head.push(','), other_last, ' ');
        assert(head =~= head.push(',').drop_last());
        assert(other_head =~= other_head.push(',').drop_last());
        text::signed_decimals_differ(ids[n - 1] as int, others[m - 1] as int);
        joined_lists_differ(ids, (n - 1) as nat, others, (m - 1) as nat);
        assert(ids.take(n as int) =~= ids.take(n - 1).push(ids[n - 1]));
        assert(others.take(m as int) =~= others.take(m - 1).push(others[m - 1]));
    }
    assert(ids.take(n as int) =~= others.take(m as int));
}

/// The identity of an element with a runtime identifier tells its window, its
/// control type and that identifier.
pub proof fn element_identities_differ(
    foreground: usize,
    el: FocusedElement,
    other_foreground: usize,
    other: FocusedElement,
)
    requires
        el.runtime_id is Some,
        other.runtime_id is Some,
        element_identity(foreground, el) == element_identity(other_foreground, other),
    ensures
        foreground == other_foreground,
        el.native_hwnd == other.native_hwnd,
        el.control_type == other.control_type,
        el.runtime_id->0@ == other.runtime_id->0@,
{
    let ids = el.runtime_id->0@;
    let other_ids = other.runtime_id->0@;
    let native = text::decimal(el.native_hwnd as nat);
    let other_native = text::decimal(other.native_hwnd as nat);
    let kind = text::signed_decimal(el.control_type as int);
    let other_kind = text::signed_decimal(other.control_type as int);
    let tail = native + seq![':'] + (kind + seq![':'] + bracketed(ids));
    let other_tail = other_native + seq![':'] + (other_kind + seq![':'] + bracketed(other_ids));
    text::numerals_hold_digits(foreground as nat, 10);
    text::numerals_hold_digits(other_foreground as nat, 10);
    text::numerals_hold_digits(el.native_hwnd as nat, 10);
    text::numerals_hold_digits(other.native_hwnd as nat, 10);
    text::signed_decimals_hold_digits(el.control_type as int);
    text::signed_decimals_hold_digits(other.control_type as int);
    assert(element_identity(foreground, el) =~= text::decimal(foreground as nat) + seq![':']
        + tail);
    assert(element_identity(other_foreground, other) =~= text::decimal(other_foreground as nat)
        + seq![':'] + other_tail);
    text::first_mark_splits(
        text::decimal(foreground as nat),
        tail,
        text::decimal(other_foreground as nat),
        other_tail,
        ':',
    );
    text::first_mark_splits(
        native,
        kind + seq![':'] + bracketed(ids),
        other_native,
        other_kind + seq![':'] + bracketed(other_ids),
        ':',
    );
    text::first_mark_splits(kind, bracketed(ids), other_kind, bracketed(other_ids), ':');
    text::numerals_differ(foreground as nat, other_foreground as nat, 10);
    text::numerals_differ(el.native_hwnd as nat, other.native_hwnd as nat, 10);
    text::signed_decimals_differ(el.control_type as int, other.control_type as int);
    assert(bracketed(ids).drop_first().drop_last() =~= joined(ids, ids.len()));
    assert(bracketed(other_ids).drop_first().drop_last() =~= joined(other_ids, other_ids.len()));
    joined_lists_differ(ids, ids.len(), other_ids, other_ids.len());
    assert(ids.take(ids.len() as int) =~= ids);
    assert(other_ids.take(other_ids.len() as int) =~= other_ids);
}

/// The place of an element at the end of its identity.
proof fn places_differ(
    before: Seq<char>,
    el: FocusedElement,
    other_before: Seq<char>,
    other: FocusedElement,
)
    requires
        before + colon_number(el.left) + colon_number(el.top) + colon_number(el.right)
            + colon_number(el.bottom) == other_before + colon_number(other.left) + colon_number(
            other.top,
        ) + colon_number(other.right) + colon_number(other.bottom),
    ensures
        before == other_before,
        el.left == other.left,
        el.top == other.top,
        el.right == other.right,
        el.bottom == other.bottom,
{
    let a3 = before + colon_number(el.left) + colon_number(el.top) + colon_number(el.right);
    let b3 = other_before + colon_number(other.left) + colon_number(other.top) + colon_number(
        other.right,
    );
    last_number_splits(a3, el.bottom, b3, other.bottom);
    let a2 = before + colon_number(el.left) + colon_number(el.top);
    let b2 = other_before + colon_number(other.left) + colon_number(other.top);
    last_number_splits(a2, el.right, b2, other.right);
    last_number_splits(
        before + colon_number(el.left),
        el.top,
        other_before + colon_number(other.left),
        other.top,
    );
    last_number_splits(before, el.left, other_before, other.left);
}

/// A number behind a colon at the end of a text can be told.
proof fn last_number_splits(a: Seq<char>, n: i32, b: Seq<char>, m: i32)
    requires
        a + colon_number(n) == b + colon_number(m),
    ensures
        a == b,
        n == m,
{
    let left = text::signed_decimal(n as int);
    let right = text::signed_decimal(m as int);
    text::signed_decimals_hold_digits(n as int);
    text::signed_decimals_hold_digits(m as int);
    assert(a + colon_number(n) =~= a + seq![':'] + left);
    assert(b + colon_number(m) =~= b + seq![':'] + right);
    text::last_mark_splits(a, left, b, right, ':');
    text::signed_decimals_differ(n as int, m as int);
}

/// The identity of an element without a runtime identifier tells its window, its control
/// type, its automation identifier and its place.
pub proof fn element_identities_differ_by_place(
    foreground: usize,
    el: FocusedElement,
    other_foreground: usize,
    other: FocusedElement,
)
    requires
        el.runtime_id is None,
        other.runtime_id is None,
        element_identity(foreground, el) == element_identity(other_foreground, other),
    ensures
        foreground == other_foreground,
        el.native_hwnd == other.native_hwnd,
        el.control_type == other.control_type,
        el.automation_id@ == other.automation_id@,
        el.left == other.left,
        el.top == other.top,
        el.right == other.right,
        el.bottom == other.bottom,
{
    let head = element_prefix(foreground, el) + seq![':'] + el.automation_id@;
    let other_head = element_prefix(other_foreground, other) + seq![':'] + other.automation_id@;
    assert(element_identity(foreground, el) =~= head + colon_number(el.left) + colon_number(el.top)
        + colon_number(el.right) + colon_number(el.bottom));
    assert(element_identity(other_foreground, other) =~= other_head + colon_number(other.left)
        + colon_number(other.top) + colon_number(other.right) + colon_number(other.bottom));
    places_differ(head, el, other_head, other);
    let native = text::decimal(el.native_hwnd as nat);
    let other_native = text::decimal(other.native_hwnd as nat);
    let kind = text::signed_decimal(el.control_type as int);
    let other_kind = text::signed_decimal(other.control_type as int);
    let tail = native + seq![':'] + (kind + seq![':'] + el.automation_id@);
    let other_tail = other_native + seq![':'] + (other_kind + seq![':'] + other.automation_id@);
    text::numerals_hold_digits(foreground as nat, 10);
    text::numerals_hold_digits(other_foreground as nat, 10);
    text::numerals_hold_digits(el.native_hwnd as nat, 10);
    text::numerals_hold_digits(other.native_hwnd as nat, 10);
    text::signed_decimals_hold_digits(el.control_type as int);
    text::signed_decimals_hold_digits(other.control_type as int);
    assert(head =~= text::decimal(foreground as nat) + seq![':'] + tail);
    assert(other_head =~= text::decimal(other_foreground as nat) + seq![':'] + other_tail);
    text::first_mark_splits(
        text::decimal(foreground as nat),
        tail,
        text::decimal(other_foreground as nat),
        other_tail,
        ':',
    );
    text::first_mark_splits(
        native,
        kind + seq![':'] + el.automation_id@,
        other_native,
        other_kind + seq![':'] + other.automation_id@,
        ':',
    );
    text::first_mark_splits(kind, el.automation_id@, other_kind, other.automation_id@, ':');
    text::numerals_differ(foreground as nat, other_foreground as nat, 10);
    text::numerals_differ(el.native_hwnd as nat, other.native_hwnd as nat, 10);
    text::signed_decimals_differ(el.control_type as int, other.control_type as int);
}

} // verus!
