//! What holds of the text operations.

use vstd::prelude::*;

use crate::text::{
    all_digits, decimal, is_digit, lines, lines_from, number, replaced, stripped, u16_value,
    unsigned_digits,
};

verus! {

/// The first place where a pattern stands is replaced, what precedes it stays,
/// and the search goes on behind it.
pub proof fn law_first_occurrence_is_replaced(
    before: Seq<char>,
    pat: Seq<char>,
    after: Seq<char>,
    with: Seq<char>,
)
    requires
        pat.len() > 0,
        forall|i: int|
            0 <= i < before.len() ==> !pat.is_prefix_of(
                #[trigger] (before + pat + after).skip(i),
            ),
    ensures
        replaced(before + pat + after, pat, with) == before + with + replaced(after, pat, with),
    decreases before.len(),
{
    let whole = before + pat + after;
    assert(whole.skip(0) == whole);
    if before.len() == 0 {
        assert(whole == pat + after);
        assert(pat.is_prefix_of(whole));
        assert(whole.skip(pat.len() as int) == after);
        assert(before + with + replaced(after, pat, with) == with + replaced(after, pat, with));
    } else {
        let rest = before.skip(1);
        let shorter = rest + pat + after;
        assert(whole.skip(1) == shorter);
        assert forall|i: int| 0 <= i < rest.len() implies !pat.is_prefix_of(
            #[trigger] shorter.skip(i),
        ) by {
            assert(shorter.skip(i) == whole.skip(i + 1));
        }
        law_first_occurrence_is_replaced(rest, pat, after, with);
        assert(!pat.is_prefix_of(whole.skip(0)));
        assert(whole[0] == before[0]);
        assert(seq![before[0]] + (rest + with + replaced(after, pat, with)) == before + with
            + replaced(after, pat, with));
    }
}

/// Two texts can be treated apart where the pattern does not stand across the
/// place at which they meet.
pub(crate) proof fn lemma_replaced_apart(
    a: Seq<char>,
    b: Seq<char>,
    pat: Seq<char>,
    with: Seq<char>,
)
    requires
        pat.len() > 0,
        forall|i: int|
            0 <= i < a.len() && pat.is_prefix_of(#[trigger] (a + b).skip(i)) ==> i + pat.len()
                <= a.len(),
    ensures
        replaced(a + b, pat, with) == replaced(a, pat, with) + replaced(b, pat, with),
    decreases a.len(),
{
    let whole = a + b;
    let n = pat.len() as int;
    let tail = replaced(b, pat, with);
    assert(whole.skip(0) == whole);
    if a.len() == 0 {
        assert(whole == b);
        assert(Seq::<char>::empty() + tail == tail);
        assert(replaced(a, pat, with) == Seq::<char>::empty());
    } else if pat.is_prefix_of(whole) {
        assert(pat.is_prefix_of(whole.skip(0)));
        assert(a.subrange(0, n) == whole.subrange(0, n));
        assert(pat.is_prefix_of(a));
        let rest = a.skip(n);
        assert(whole.skip(n) == rest + b);
        assert forall|i: int|
            0 <= i < rest.len() && pat.is_prefix_of(#[trigger] (rest + b).skip(i)) implies i
            + pat.len() <= rest.len() by {
            assert((rest + b).skip(i) == whole.skip(i + n));
        }
        lemma_replaced_apart(rest, b, pat, with);
        let head = replaced(rest, pat, with);
        assert(with + (head + tail) == (with + head) + tail);
    } else {
        assert(!pat.is_prefix_of(a)) by {
            if pat.is_prefix_of(a) {
                assert(a.subrange(0, n) == whole.subrange(0, n));
            }
        }
        let rest = a.skip(1);
        assert(whole.skip(1) == rest + b);
        assert forall|i: int|
            0 <= i < rest.len() && pat.is_prefix_of(#[trigger] (rest + b).skip(i)) implies i
            + pat.len() <= rest.len() by {
            assert((rest + b).skip(i) == whole.skip(i + 1));
        }
        lemma_replaced_apart(rest, b, pat, with);
        assert(whole[0] == a[0]);
        let head = replaced(rest, pat, with);
        assert(seq![a[0]] + (head + tail) == (seq![a[0]] + head) + tail);
    }
}

/// What is left without a prefix is what stands behind it, and there is
/// something left exactly where the text begins with the prefix.
pub proof fn law_stripped_is_the_rest(s: Seq<char>, p: Seq<char>, rest: Seq<char>)
    ensures
        stripped(p + rest, p) == Some(rest),
        stripped(s, p) matches Some(r) ==> s == p + r,
        stripped(s, p) is None ==> s != p + rest,
{
    assert(p.is_prefix_of(p + rest));
    assert((p + rest).skip(p.len() as int) == rest);
    if p.is_prefix_of(s) {
        assert(s == p + s.skip(p.len() as int));
    }
}

/// Positions can be counted from a later place on.
proof fn lemma_lines_shift(s: Seq<char>, k: int, from: int, at: int)
    requires
        0 <= k <= from <= at <= s.len(),
    ensures
        lines_from(s, from, at) == lines_from(s.skip(k), from - k, at - k),
    decreases s.len() - at,
{
    let rest = s.skip(k);
    if at < s.len() {
        assert(rest[at - k] == s[at]);
        assert(rest.subrange(from - k, at - k) == s.subrange(from, at));
        if s[at] == '\n' {
            lemma_lines_shift(s, k, at + 1, at + 1);
        } else {
            lemma_lines_shift(s, k, from, at + 1);
        }
    } else {
        assert(rest.subrange(from - k, rest.len() as int) == s.subrange(from, s.len() as int));
    }
}

/// Characters that end no line are passed over.
proof fn lemma_lines_scan(s: Seq<char>, from: int, at: int, end: int)
    requires
        0 <= from <= at <= end <= s.len(),
        forall|i: int| at <= i < end ==> s[i] != '\n',
    ensures
        lines_from(s, from, at) == lines_from(s, from, end),
    decreases end - at,
{
    if at < end {
        lemma_lines_scan(s, from, at + 1, end);
    }
}

/// What stands before the first line feed is the first line, without a carriage
/// return at its end, and what stands behind it are the other lines.
pub proof fn law_first_line(line: Seq<char>, rest: Seq<char>)
    requires
        !line.contains('\n'),
    ensures
        line.len() == 0 || line.last() != '\r' ==> lines(line + seq!['\n'] + rest) == seq![line]
            + lines(rest),
        lines(line + seq!['\r', '\n'] + rest) == seq![line] + lines(rest),
{
    let s = line + seq!['\n'] + rest;
    let n = line.len() as int;
    assert forall|i: int| 0 <= i < n implies s[i] != '\n' by {
        assert(line.contains(line[i]));
    }
    lemma_lines_scan(s, 0, 0, n);
    lemma_lines_shift(s, n + 1, n + 1, n + 1);
    assert(s.skip(n + 1) == rest);
    assert(s.subrange(0, n) == line);
    let t = line + seq!['\r', '\n'] + rest;
    assert forall|i: int| 0 <= i < n + 1 implies t[i] != '\n' by {
        if i < n {
            assert(line.contains(line[i]));
        }
    }
    lemma_lines_scan(t, 0, 0, n + 1);
    lemma_lines_shift(t, n + 2, n + 2, n + 2);
    assert(t.skip(n + 2) == rest);
    assert(t.subrange(0, n + 1).drop_last() == line);
    assert(t.subrange(0, n + 1).last() == '\r');
}

/// A text without a line feed is one line as it stands, and none where it is
/// empty.
pub proof fn law_only_line(line: Seq<char>)
    requires
        !line.contains('\n'),
    ensures
        lines(line) == if line.len() > 0 {
            seq![line]
        } else {
            Seq::empty()
        },
{
    assert forall|i: int| 0 <= i < line.len() implies line[i] != '\n' by {
        assert(line.contains(line[i]));
    }
    lemma_lines_scan(line, 0, 0, line.len() as int);
    assert(line.subrange(0, line.len() as int) == line);
}

/// The decimal text of a number is made of digits, without a zero in front, and
/// read back it gives the number.
pub proof fn law_decimal_is_read_back(n: nat)
    ensures
        decimal(n).len() > 0,
        all_digits(decimal(n)),
        number(decimal(n)) == n,
        n > 0 ==> decimal(n)[0] != '0',
        n == 0 ==> decimal(n) == seq!['0'],
        n <= 65535 ==> u16_value(decimal(n)) == Some(n as int),
        n > 65535 ==> u16_value(decimal(n)) is None,
    decreases n,
{
    let d = decimal(n);
    let last = ('0' as int + n % 10) as char;
    assert(is_digit(last) && last as int - '0' as int == n % 10);
    if n < 10 {
        assert(d == seq![last]);
        assert(d.drop_last() == Seq::<char>::empty());
        reveal_with_fuel(number, 2);
    } else {
        law_decimal_is_read_back(n / 10);
        let init = decimal(n / 10);
        assert(d == init.push(last));
        assert(d.drop_last() == init);
        assert forall|i: int| 0 <= i < d.len() implies is_digit(#[trigger] d[i]) by {
            if i < init.len() {
                assert(d[i] == init[i]);
            }
        }
    }
    assert(is_digit(d[0]));
    assert(unsigned_digits(d) == d);
}

/// A plus sign in front of a number changes nothing, and so does a zero.
pub proof fn law_sign_and_zeros_do_not_count(digits: Seq<char>)
    requires
        digits.len() > 0,
        all_digits(digits),
    ensures
        u16_value(seq!['+'] + digits) == u16_value(digits),
        u16_value(seq!['0'] + digits) == u16_value(digits),
{
    assert(is_digit(digits[0]));
    assert((seq!['+'] + digits).skip(1) == digits);
    let zeroed = seq!['0'] + digits;
    assert forall|i: int| 0 <= i < zeroed.len() implies is_digit(#[trigger] zeroed[i]) by {
        if i > 0 {
            assert(is_digit(digits[i - 1]));
        }
    }
    lemma_number_of_zero(digits);
}

/// What is read as a number fits in sixteen bits.
pub proof fn law_numbers_fit(s: Seq<char>)
    ensures
        u16_value(s) matches Some(n) ==> 0 <= n <= 65535,
{
    if u16_value(s) is Some {
        lemma_number_is_natural(unsigned_digits(s));
    }
}

/// Digits denote no negative number.
proof fn lemma_number_is_natural(digits: Seq<char>)
    requires
        all_digits(digits),
    ensures
        number(digits) >= 0,
    decreases digits.len(),
{
    if digits.len() > 0 {
        let init = digits.drop_last();
        assert forall|i: int| 0 <= i < init.len() implies is_digit(#[trigger] init[i]) by {
            assert(is_digit(digits[i]));
        }
        lemma_number_is_natural(init);
        assert(is_digit(digits[digits.len() - 1]));
    }
}

/// A zero in front does not change the number.
proof fn lemma_number_of_zero(digits: Seq<char>)
    ensures
        number(seq!['0'] + digits) == number(digits),
    decreases digits.len(),
{
    let zeroed = seq!['0'] + digits;
    if digits.len() == 0 {
        assert(zeroed.drop_last() == Seq::<char>::empty());
        reveal_with_fuel(number, 2);
    } else {
        lemma_number_of_zero(digits.drop_last());
        assert(zeroed.drop_last() == seq!['0'] + digits.drop_last());
    }
}

/// What holds anything but digits, apart from a plus sign in front, is no
/// number, nor is a text without a digit.
pub proof fn law_only_digits_are_numbers(s: Seq<char>, i: int)
    ensures
        s.len() == 0 || s == seq!['+'] ==> u16_value(s) is None,
        0 <= i < s.len() && !('0' <= s[i] <= '9') && (i > 0 || s[i] != '+') ==> u16_value(
            s,
        ) is None,
{
    if s == seq!['+'] {
        assert(unsigned_digits(s) == Seq::<char>::empty());
    }
    if 0 <= i < s.len() && !('0' <= s[i] <= '9') && (i > 0 || s[i] != '+') {
        let digits = unsigned_digits(s);
        let j = if s[0] == '+' {
            i - 1
        } else {
            i
        };
        assert(digits[j] == s[i]);
        assert(!is_digit(digits[j]));
    }
}

} // verus!
