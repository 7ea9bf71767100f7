//! Text comparisons and number rendering.

use vstd::prelude::*;

verus! {

/// The code point of `c`, with ASCII capitals folded onto their small letters.
pub open spec fn ascii_fold(c: char) -> u32 {
    if 'A' <= c && c <= 'Z' {
        (c as u32 + 32) as u32
    } else {
        c as u32
    }
}

/// `a` and `b` are the same text up to the case of ASCII letters.
pub open spec fn same_ignoring_ascii_case(a: Seq<char>, b: Seq<char>) -> bool {
    &&& a.len() == b.len()
    &&& forall|i: int| 0 <= i < a.len() ==> ascii_fold(#[trigger] a[i]) == ascii_fold(b[i])
}

/// `part` occurs in `whole` up to the case of ASCII letters.
pub open spec fn contains_ignoring_ascii_case(whole: Seq<char>, part: Seq<char>) -> bool {
    exists|at: int|
        0 <= at <= whole.len() - part.len() && same_ignoring_ascii_case(
            #[trigger] whole.subrange(at, at + part.len()),
            part,
        )
}

fn fold_char(c: char) -> (code: u32)
    ensures
        code == ascii_fold(c),
{
    if 'A' <= c && c <= 'Z' {
        c as u32 + 32
    } else {
        c as u32
    }
}

/// The characters of `s`.
pub fn chars_of(s: &str) -> (chars: Vec<char>)
    ensures
        chars@ == s@,
{
    let mut out: Vec<char> = Vec::new();
    for c in it: s.chars()
        invariant
            out@ == it.seq().take(it.index() as int),
    {
        out.push(c);
    }
    out
}

/// Whether `a` and `b` hold the same characters.
pub fn same_text(a: &str, b: &str) -> (same: bool)
    ensures
        same == (a@ == b@),
{
    let left = chars_of(a);
    let right = chars_of(b);
    if left.len() != right.len() {
        return false;
    }
    let mut i: usize = 0;
    while i < left.len()
        invariant
            left@ == a@,
            right@ == b@,
            left.len() == right.len(),
            i <= left.len(),
            forall|j: int| 0 <= j < i ==> #[trigger] a@[j] == b@[j],
        decreases left.len() - i,
    {
        if left[i] != right[i] {
            assert(a@[i as int] != b@[i as int]);
            return false;
        }
        i += 1;
    }
    assert(a@ =~= b@);
    true
}

/// Whether `a` and `b` are the same text up to the case of ASCII letters.
pub fn eq_ignore_ascii_case(a: &str, b: &str) -> (same: bool)
    ensures
        same == same_ignoring_ascii_case(a@, b@),
{
    let left = chars_of(a);
    let right = chars_of(b);
    if left.len() != right.len() {
        return false;
    }
    let mut i: usize = 0;
    while i < left.len()
        invariant
            left@ == a@,
            right@ == b@,
            left.len() == right.len(),
            i <= left.len(),
            forall|j: int| 0 <= j < i ==> ascii_fold(#[trigger] a@[j]) == ascii_fold(b@[j]),
        decreases left.len() - i,
    {
        if fold_char(left[i]) != fold_char(right[i]) {
            assert(ascii_fold(a@[i as int]) != ascii_fold(b@[i as int]));
            return false;
        }
        i += 1;
    }
    true
}

/// Whether `part` stands in `whole` at index `at`, up to the case of ASCII letters.
fn occurs_at(whole: &Vec<char>, part: &Vec<char>, at: usize) -> (yes: bool)
    requires
        at + part.len() <= whole.len(),
    ensures
        yes == same_ignoring_ascii_case(whole@.subrange(at as int, at + part.len()), part@),
{
    let ghost window = whole@.subrange(at as int, at + part.len());
    let mut i: usize = 0;
    while i < part.len()
        invariant
            at + part.len() <= whole.len(),
            window == whole@.subrange(at as int, at + part.len()),
            i <= part.len(),
            forall|j: int| 0 <= j < i ==> ascii_fold(#[trigger] window[j]) == ascii_fold(part@[j]),
        decreases part.len() - i,
    {
        if fold_char(whole[at + i]) != fold_char(part[i]) {
            assert(ascii_fold(window[i as int]) != ascii_fold(part@[i as int]));
            return false;
        }
        i += 1;
    }
    true
}

/// Whether `part` occurs in `whole` up to the case of ASCII letters.
pub fn contains_ignore_ascii_case(whole: &str, part: &str) -> (found: bool)
    ensures
        found == contains_ignoring_ascii_case(whole@, part@),
{
    let hay = chars_of(whole);
    let needle = chars_of(part);
    if needle.len() > hay.len() {
        return false;
    }
    let last: usize = hay.len() - needle.len();
    let mut at: usize = 0;
    while at <= last
        invariant
            hay@ == whole@,
            needle@ == part@,
            last == hay.len() - needle.len(),
            at <= last + 1,
            forall|k: int|
                0 <= k < at ==> !same_ignoring_ascii_case(
                    #[trigger] whole@.subrange(k, k + part@.len()),
                    part@,
                ),
        decreases last + 1 - at,
    {
        if occurs_at(&hay, &needle, at) {
            return true;
        }
        if at == last {
            return false;
        }
        at += 1;
    }
    false
}

/// The character that stands for the digit `d` of a number system up to base sixteen.
pub open spec fn digit_char(d: int) -> char {
    if d == 0 { '0' } else if d == 1 { '1' } else if d == 2 { '2' } else if d == 3 { '3' }
    else if d == 4 { '4' } else if d == 5 { '5' } else if d == 6 { '6' } else if d == 7 { '7' }
    else if d == 8 { '8' } else if d == 9 { '9' } else if d == 10 { 'A' } else if d == 11 { 'B' }
    else if d == 12 { 'C' } else if d == 13 { 'D' } else if d == 14 { 'E' } else { 'F' }
}

/// `n` written in `base` with capital letters and no leading zeros.
pub open spec fn numeral(n: nat, base: nat) -> Seq<char>
    decreases n,
{
    if base < 2 || n < base {
        seq![digit_char(n as int)]
    } else {
        proof {
            assert(n / base < n) by (nonlinear_arith)
                requires
                    n >= base,
                    base >= 2,
            ;
        }
        numeral(n / base, base).push(digit_char((n % base) as int))
    }
}

/// `n` in decimal.
pub open spec fn decimal(n: nat) -> Seq<char> {
    numeral(n, 10)
}

/// `n` in hexadecimal, with capital letters.
pub open spec fn hexadecimal(n: nat) -> Seq<char> {
    numeral(n, 16)
}

/// `n` in decimal, with a minus sign before a negative number.
pub open spec fn signed_decimal(n: int) -> Seq<char> {
    if n < 0 {
        seq!['-'] + decimal((-n) as nat)
    } else {
        decimal(n as nat)
    }
}

/// `c` stands for a digit.
pub open spec fn is_digit(c: char) -> bool {
    ('0' <= c && c <= '9') || ('A' <= c && c <= 'F')
}

/// Numbers are written with digits alone.
pub proof fn numerals_hold_digits(n: nat, base: nat)
    requires
        2 <= base <= 16,
    ensures
        numeral(n, base).len() > 0,
        forall|i: int| 0 <= i < numeral(n, base).len() ==> is_digit(#[trigger] numeral(n, base)[i]),
    decreases n,
{
    if n >= base {
        assert(n / base < n) by (nonlinear_arith)
            requires
                n >= base,
                base >= 2,
        ;
        assert(n % base < base) by (nonlinear_arith)
            requires
                base >= 2,
        ;
        numerals_hold_digits(n / base, base);
    }
}

/// Different numbers are written differently.
pub proof fn numerals_differ(n: nat, m: nat, base: nat)
    requires
        2 <= base <= 16,
        numeral(n, base) == numeral(m, base),
    ensures
        n == m,
    decreases n,
{
    if n >= base {
        numerals_hold_digits(n / base, base);
    }
    if m >= base {
        numerals_hold_digits(m / base, base);
    }
    let digits = numeral(n, base);
    if n < base {
        assert(digits.last() == digit_char(n as int));
        assert(m < base);
    } else {
        assert(n / base < n) by (nonlinear_arith)
            requires
                n >= base,
                base >= 2,
        ;
        assert(m >= base);
        assert(n % base < base && m % base < base) by (nonlinear_arith)
            requires
                base >= 2,
        ;
        assert(digits.drop_last() =~= numeral(n / base, base));
        assert(digits.drop_last() =~= numeral(m / base, base));
        assert(digits.last() == digit_char((n % base) as int));
        assert(digits.last() == digit_char((m % base) as int));
        numerals_differ(n / base, m / base, base);
        assert(n == base * (n / base) + n % base) by (nonlinear_arith)
            requires
                base >= 2,
        ;
        assert(m == base * (m / base) + m % base) by (nonlinear_arith)
            requires
                base >= 2,
        ;
    }
}

/// A signed number holds digits and a minus sign alone.
pub proof fn signed_decimals_hold_digits(n: int)
    ensures
        signed_decimal(n).len() > 0,
        forall|i: int|
            0 <= i < signed_decimal(n).len() ==> is_digit(#[trigger] signed_decimal(n)[i])
                || signed_decimal(n)[i] == '-',
{
    if n < 0 {
        numerals_hold_digits((-n) as nat, 10);
    } else {
        numerals_hold_digits(n as nat, 10);
    }
}

/// Different signed numbers are written differently.
pub proof fn signed_decimals_differ(n: int, m: int)
    requires
        signed_decimal(n) == signed_decimal(m),
    ensures
        n == m,
{
    let digits = signed_decimal(n);
    let size_n: nat = if n < 0 { (-n) as nat } else { n as nat };
    let size_m: nat = if m < 0 { (-m) as nat } else { m as nat };
    numerals_hold_digits(size_n, 10);
    numerals_hold_digits(size_m, 10);
    if n < 0 {
        assert(digits[0] == '-');
        assert(digits.drop_first() =~= decimal(size_n));
    } else {
        assert(digits[0] == decimal(size_n)[0]);
    }
    if m < 0 {
        assert(digits[0] == '-');
        assert(digits.drop_first() =~= decimal(size_m));
    } else {
        assert(digits[0] == decimal(size_m)[0]);
    }
    numerals_differ(size_n, size_m, 10);
}

/// Texts that are joined by a mark that the first of them does not hold can be
/// told apart again.
pub proof fn first_mark_splits(a: Seq<char>, b: Seq<char>, c: Seq<char>, d: Seq<char>, mark: char)
    requires
        a + seq![mark] + b == c + seq![mark] + d,
        forall|i: int| 0 <= i < a.len() ==> #[trigger] a[i] != mark,
        forall|i: int| 0 <= i < c.len() ==> #[trigger] c[i] != mark,
    ensures
        a == c,
        b == d,
{
    let left = a + seq![mark] + b;
    let right = c + seq![mark] + d;
    assert(left[a.len() as int] == mark);
    assert(right[c.len() as int] == mark);
    if a.len() < c.len() {
        assert(right[a.len() as int] == c[a.len() as int]);
    }
    if c.len() < a.len() {
        assert(left[c.len() as int] == a[c.len() as int]);
    }
    assert(a =~= left.take(a.len() as int));
    assert(c =~= right.take(c.len() as int));
    assert(b =~= left.skip(a.len() as int + 1));
    assert(d =~= right.skip(c.len() as int + 1));
}

/// Texts that are joined by a mark that the last of them does not hold can be
/// told apart again.
pub proof fn last_mark_splits(a: Seq<char>, b: Seq<char>, c: Seq<char>, d: Seq<char>, mark: char)
    requires
        a + seq![mark] + b == c + seq![mark] + d,
        forall|i: int| 0 <= i < b.len() ==> #[trigger] b[i] != mark,
        forall|i: int| 0 <= i < d.len() ==> #[trigger] d[i] != mark,
    ensures
        a == c,
        b == d,
{
    let left = a + seq![mark] + b;
    let right = c + seq![mark] + d;
    assert(left[a.len() as int] == mark);
    assert(right[c.len() as int] == mark);
    if a.len() < c.len() {
        assert(c.len() < left.len());
        assert(left[c.len() as int] == b[c.len() - a.len() - 1]);
    }
    if c.len() < a.len() {
        assert(a.len() < right.len());
        assert(right[a.len() as int] == d[a.len() - c.len() - 1]);
    }
    assert(a =~= left.take(a.len() as int));
    assert(c =~= right.take(c.len() as int));
    assert(b =~= left.skip(a.len() as int + 1));
    assert(d =~= right.skip(c.len() as int + 1));
}

fn digit_text(d: u64) -> (text: &'static str)
    requires
        d < 16,
    ensures
        text@ == seq![digit_char(d as int)],
{
    proof {
        reveal_strlit("0");
        reveal_strlit("1");
        reveal_strlit("2");
        reveal_strlit("3");
        reveal_strlit("4");
        reveal_strlit("5");
        reveal_strlit("6");
        reveal_strlit("7");
        reveal_strlit("8");
        reveal_strlit("9");
        reveal_strlit("A");
        reveal_strlit("B");
        reveal_strlit("C");
        reveal_strlit("D");
        reveal_strlit("E");
        reveal_strlit("F");
    }
    if d == 0 { "0" } else if d == 1 { "1" } else if d == 2 { "2" } else if d == 3 { "3" }
    else if d == 4 { "4" } else if d == 5 { "5" } else if d == 6 { "6" } else if d == 7 { "7" }
    else if d == 8 { "8" } else if d == 9 { "9" } else if d == 10 { "A" } else if d == 11 { "B" }
    else if d == 12 { "C" } else if d == 13 { "D" } else if d == 14 { "E" } else { "F" }
}

/// Appends `n`, written in `base`, to `out`.
pub fn push_numeral(out: &mut String, n: u64, base: u64)
    requires
        2 <= base <= 16,
    ensures
        final(out)@ == old(out)@ + numeral(n as nat, base as nat),
    decreases n,
{
    if n < base {
        out.append(digit_text(n));
        assert(out@ =~= old(out)@ + numeral(n as nat, base as nat));
    } else {
        assert(n / base < n) by (nonlinear_arith)
            requires
                n >= base,
                base >= 2,
        ;
        push_numeral(out, n / base, base);
        out.append(digit_text(n % base));
        assert(out@ =~= old(out)@ + numeral(n as nat, base as nat));
    }
}

/// Appends `n` in decimal to `out`.
pub fn push_decimal(out: &mut String, n: usize)
    ensures
        final(out)@ == old(out)@ + decimal(n as nat),
{
    push_numeral(out, n as u64, 10);
}

/// Appends `n` in hexadecimal, with capital letters.
pub fn push_hexadecimal(out: &mut String, n: u32)
    ensures
        final(out)@ == old(out)@ + hexadecimal(n as nat),
{
    push_numeral(out, n as u64, 16);
}

/// Appends `n` in decimal to `out`, with a minus sign before a negative number.
pub fn push_signed_decimal(out: &mut String, n: i32)
    ensures
        final(out)@ == old(out)@ + signed_decimal(n as int),
{
    if n < 0 {
        proof {
            reveal_strlit("-");
        }
        assert("-"@ =~= seq!['-']);
        out.append("-");
        let magnitude: i64 = -(n as i64);
        push_numeral(out, magnitude as u64, 10);
        assert(out@ =~= old(out)@ + signed_decimal(n as int));
    } else {
        push_numeral(out, n as u64, 10);
    }
}

/// `a` comes no later than `b` in the order of their code points.
pub open spec fn no_later(a: Seq<char>, b: Seq<char>) -> bool
    decreases a.len(),
{
    if a.len() == 0 {
        true
    } else if b.len() == 0 {
        false
    } else if a[0] == b[0] {
        no_later(a.drop_first(), b.drop_first())
    } else {
        a[0] < b[0]
    }
}

/// Of two texts one comes no later than the other.
pub proof fn texts_are_ordered(a: Seq<char>, b: Seq<char>)
    ensures
        no_later(a, b) || no_later(b, a),
    decreases a.len(),
{
    if a.len() > 0 && b.len() > 0 {
        texts_are_ordered(a.drop_first(), b.drop_first());
    }
}

/// What comes no later than a text comes no later than what follows it.
pub proof fn order_is_transitive(a: Seq<char>, b: Seq<char>, c: Seq<char>)
    requires
        no_later(a, b),
        no_later(b, c),
    ensures
        no_later(a, c),
    decreases a.len(),
{
    if a.len() > 0 && b.len() > 0 && c.len() > 0 && a[0] == b[0] && b[0] == c[0] {
        order_is_transitive(a.drop_first(), b.drop_first(), c.drop_first());
    }
}

/// Whether `a` comes no later than `b` in the order of their code points.
pub fn comes_no_later(a: &str, b: &str) -> (yes: bool)
    ensures
        yes == no_later(a@, b@),
{
    let left = chars_of(a);
    let right = chars_of(b);
    let mut i: usize = 0;
    assert(left@.skip(0) =~= a@);
    assert(right@.skip(0) =~= b@);
    while i < left.len() && i < right.len()
        invariant
            left@ == a@,
            right@ == b@,
            i <= left.len(),
            i <= right.len(),
            no_later(a@, b@) == no_later(a@.skip(i as int), b@.skip(i as int)),
        decreases left.len() - i,
    {
        assert(a@.skip(i as int)[0] == left@[i as int]);
        assert(b@.skip(i as int)[0] == right@[i as int]);
        if left[i] != right[i] {
            return left[i] < right[i];
        }
        assert(a@.skip(i as int).drop_first() =~= a@.skip(i + 1));
        assert(b@.skip(i as int).drop_first() =~= b@.skip(i + 1));
        i += 1;
    }
    i == left.len()
}

/// `c` is blank within a line.
pub open spec fn is_blank(c: char) -> bool {
    c == ' ' || c == '\t' || c == '\r'
}

/// `s` without the blanks at its beginning.
pub open spec fn without_leading(s: Seq<char>) -> Seq<char>
    decreases s.len(),
{
    if s.len() > 0 && is_blank(s[0]) {
        without_leading(s.drop_first())
    } else {
        s
    }
}

/// `s` without the blanks at its end.
pub open spec fn without_trailing(s: Seq<char>) -> Seq<char>
    decreases s.len(),
{
    if s.len() > 0 && is_blank(s.last()) {
        without_trailing(s.drop_last())
    } else {
        s
    }
}

/// `s` without the blanks around it.
pub open spec fn trimmed(s: Seq<char>) -> Seq<char> {
    without_trailing(without_leading(s))
}

/// No blanks are around `s`.
pub open spec fn is_tight(s: Seq<char>) -> bool {
    s.len() == 0 || (!is_blank(s[0]) && !is_blank(s.last()))
}

/// The index of the first `mark` in `s`, or the length of `s`.
pub open spec fn first_at(s: Seq<char>, mark: char) -> nat
    decreases s.len(),
{
    if s.len() == 0 || s[0] == mark {
        0
    } else {
        1 + first_at(s.drop_first(), mark)
    }
}

/// A first mark is a mark, and none stands before it.
pub proof fn first_at_finds(s: Seq<char>, mark: char)
    ensures
        first_at(s, mark) <= s.len(),
        first_at(s, mark) < s.len() ==> s[first_at(s, mark) as int] == mark,
        forall|i: int| 0 <= i < first_at(s, mark) ==> #[trigger] s[i] != mark,
    decreases s.len(),
{
    if s.len() > 0 && s[0] != mark {
        let rest = s.drop_first();
        first_at_finds(rest, mark);
        assert forall|i: int| 0 <= i < first_at(s, mark) implies #[trigger] s[i] != mark by {
            if i > 0 {
                assert(s[i] == rest[i - 1]);
            }
        }
    }
}

/// The first mark of a text that is put together by it stands where it was put.
pub proof fn first_at_joint(a: Seq<char>, mark: char, b: Seq<char>)
    requires
        !a.contains(mark),
    ensures
        first_at(a + seq![mark] + b, mark) == a.len(),
{
    let s = a + seq![mark] + b;
    first_at_finds(s, mark);
    assert(s[a.len() as int] == mark);
    if first_at(s, mark) < a.len() {
        assert(s[first_at(s, mark) as int] == a[first_at(s, mark) as int]);
        assert(a.contains(a[first_at(s, mark) as int]));
    }
}

/// Without the mark there is no first one.
pub proof fn first_at_misses(s: Seq<char>, mark: char)
    requires
        !s.contains(mark),
    ensures
        first_at(s, mark) == s.len(),
{
    first_at_finds(s, mark);
    if first_at(s, mark) < s.len() {
        assert(s.contains(s[first_at(s, mark) as int]));
    }
}

/// A blank before or behind a tight text is trimmed away.
pub proof fn blanks_are_trimmed(s: Seq<char>)
    requires
        is_tight(s),
    ensures
        trimmed(s) == s,
        trimmed(seq![' '] + s) == s,
        trimmed(s.push(' ')) == s,
{
    assert((seq![' '] + s).drop_first() =~= s);
    assert(s.push(' ').drop_last() =~= s);
    assert(without_leading(seq![' '] + s) == without_leading(s));
    if s.len() > 0 {
        assert(s.push(' ')[0] == s[0]);
    } else {
        assert(s.push(' ').drop_first() =~= s);
    }
}

/// A text keeps its first character when it is trimmed, where that is no blank.
pub proof fn trimming_keeps_the_beginning(s: Seq<char>)
    requires
        s.len() > 0,
        !is_blank(s[0]),
    ensures
        trimmed(s).len() > 0,
        trimmed(s)[0] == s[0],
    decreases s.len(),
{
    if is_blank(s.last()) {
        trimming_keeps_the_beginning(s.drop_last());
    }
}

/// `s` without the blanks around it.
pub fn trim(s: &str) -> (r: &str)
    ensures
        r@ == trimmed(s@),
{
    let chars = chars_of(s);
    let mut start: usize = 0;
    assert(s@.skip(0) =~= s@);
    while start < chars.len() && blank(chars[start])
        invariant
            chars@ == s@,
            start <= chars.len(),
            without_leading(s@) == without_leading(s@.skip(start as int)),
        decreases chars.len() - start,
    {
        assert(s@.skip(start as int)[0] == s@[start as int]);
        assert(s@.skip(start as int).drop_first() =~= s@.skip(start + 1));
        start += 1;
    }
    assert(without_leading(s@) =~= s@.skip(start as int));
    let mut end: usize = chars.len();
    assert(s@.skip(start as int) =~= s@.subrange(start as int, end as int));
    while end > start && blank(chars[end - 1])
        invariant
            chars@ == s@,
            start <= end <= chars.len(),
            trimmed(s@) == without_trailing(s@.subrange(start as int, end as int)),
        decreases end,
    {
        let ghost part = s@.subrange(start as int, end as int);
        assert(part.last() == s@[end - 1]);
        assert(part.drop_last() =~= s@.subrange(start as int, end - 1));
        end -= 1;
    }
    let ghost part = s@.subrange(start as int, end as int);
    assert(part.len() > 0 ==> part.last() == s@[end - 1]);
    s.substring_char(start, end)
}

fn blank(c: char) -> (yes: bool)
    ensures
        yes == is_blank(c),
{
    c == ' ' || c == '\t' || c == '\r'
}

/// The index of the first `mark` in `s`, or the length of `s`.
pub fn find_first(s: &str, mark: char) -> (at: usize)
    ensures
        at == first_at(s@, mark),
        at <= s@.len(),
{
    let chars = chars_of(s);
    let mut i: usize = 0;
    assert(s@.skip(0) =~= s@);
    while i < chars.len()
        invariant
            chars@ == s@,
            i <= chars.len(),
            first_at(s@, mark) == i + first_at(s@.skip(i as int), mark),
        decreases chars.len() - i,
    {
        assert(s@.skip(i as int)[0] == s@[i as int]);
        if chars[i] == mark {
            return i;
        }
        assert(s@.skip(i as int).drop_first() =~= s@.skip(i + 1));
        i += 1;
    }
    i
}

/// The text of an optional string.
pub open spec fn opt_view(s: Option<String>) -> Option<Seq<char>> {
    match s {
        Some(t) => Some(t@),
        None => None,
    }
}

/// What stands before the first `c` of a text, without the blanks around it.
pub open spec fn before(s: Seq<char>, c: char) -> Seq<char> {
    trimmed(s.take(first_at(s, c) as int))
}

/// What stands behind the first `c` of a text, without the blanks around it.
pub open spec fn behind(s: Seq<char>, c: char) -> Seq<char> {
    trimmed(s.skip(first_at(s, c) as int + 1))
}

/// What stands before and behind the first `c` of a text that holds one.
pub fn split_at_first<'a>(s: &'a str, c: char) -> (parts: Option<(&'a str, &'a str)>)
    ensures
        parts is Some <==> first_at(s@, c) < s@.len(),
        parts matches Some((left, right)) ==> left@ == before(s@, c) && right@ == behind(s@, c),
{
    let len: usize = s.unicode_len();
    let at: usize = find_first(s, c);
    if at >= len {
        return None;
    }
    let left = s.substring_char(0, at);
    assert(left@ =~= s@.take(at as int));
    let right = s.substring_char(at + 1, len);
    assert(right@ =~= s@.skip(at + 1));
    Some((trim(left), trim(right)))
}

} // verus!
