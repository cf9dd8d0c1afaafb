//! Text operations over sequences of characters.

use vstd::prelude::*;
use vstd::string::*;

verus! {

/// `s` with every occurrence of `pat` replaced by `with`, found from left to
/// right without overlap. What has been put in is not searched again.
pub open spec fn replaced(s: Seq<char>, pat: Seq<char>, with: Seq<char>) -> Seq<char>
    recommends
        pat.len() > 0,
    decreases s.len(),
{
    if pat.len() == 0 || s.len() == 0 {
        s
    } else if pat.is_prefix_of(s) {
        with + replaced(s.skip(pat.len() as int), pat, with)
    } else {
        seq![s[0]] + replaced(s.skip(1), pat, with)
    }
}

/// The characters of `s`, in order.
pub fn chars_of(s: &str) -> (chars: Vec<char>)
    ensures
        chars@ == s@,
{
    let mut chars: Vec<char> = Vec::new();
    for c in it: s.chars()
        invariant
            it.seq() == s@,
            chars@ == s@.take(it.index()),
    {
        chars.push(c);
    }
    chars
}

/// Whether `pat` stands in `s` at position `at`.
fn occurs_at(s: &Vec<char>, at: usize, pat: &Vec<char>) -> (found: bool)
    requires
        at <= s@.len(),
    ensures
        found == pat@.is_prefix_of(s@.skip(at as int)),
{
    if s.len() - at < pat.len() {
        return false;
    }
    let mut i: usize = 0;
    while i < pat.len()
        invariant
            i <= pat@.len(),
            at + pat@.len() <= s.len(),
            forall|j: int| 0 <= j < i ==> s@[at + j] == pat@[j],
        decreases pat@.len() - i,
    {
        if s[at + i] != pat[i] {
            assert(s@.skip(at as int).subrange(0, pat@.len() as int)[i as int] != pat@[i as int]);
            return false;
        }
        i += 1;
    }
    true
}

/// `s` with every occurrence of `pat` replaced by `with`.
pub fn replace_all(s: &str, pat: &str, with: &str) -> (out: String)
    requires
        pat@.len() > 0,
    ensures
        out@ == replaced(s@, pat@, with@),
{
    let text: Vec<char> = chars_of(s);
    let pattern: Vec<char> = chars_of(pat);
    let mut out: String = String::new();
    let mut copied: usize = 0;
    let mut i: usize = 0;
    proof {
        assert(s@.skip(0) == s@);
        assert(out@ + s@.subrange(0, 0) + replaced(s@.skip(0), pat@, with@) == replaced(
            s@,
            pat@,
            with@,
        ));
    }
    while i < text.len()
        invariant
            text@ == s@,
            pattern@ == pat@,
            pat@.len() > 0,
            copied <= i <= s@.len(),
            out@ + s@.subrange(copied as int, i as int) + replaced(s@.skip(i as int), pat@, with@)
                == replaced(s@, pat@, with@),
        decreases s@.len() - i,
    {
        let ghost rest = s@.skip(i as int);
        if occurs_at(&text, i, &pattern) {
            let ghost before = out@;
            out.append(s.substring_char(copied, i));
            out.append(with);
            proof {
                assert(rest.skip(pat@.len() as int) == s@.skip(i + pat@.len()));
                let tail = replaced(s@.skip(i + pat@.len()), pat@, with@);
                assert(out@ == before + s@.subrange(copied as int, i as int) + with@);
                assert(out@ + s@.subrange(i + pat@.len(), i + pat@.len()) + tail == before
                    + s@.subrange(copied as int, i as int) + (with@ + tail));
            }
            i += pattern.len();
            copied = i;
        } else {
            proof {
                assert(rest.skip(1) == s@.skip(i + 1));
                let tail = replaced(s@.skip(i + 1), pat@, with@);
                assert(rest[0] == s@[i as int]);
                assert(out@ + s@.subrange(copied as int, i + 1) + tail == out@ + s@.subrange(
                    copied as int,
                    i as int,
                ) + (seq![s@[i as int]] + tail));
            }
            i += 1;
        }
    }
    proof {
        assert(s@.skip(i as int) == Seq::<char>::empty());
        assert(out@ + s@.subrange(copied as int, i as int) + Seq::<char>::empty() == out@
            + s@.subrange(copied as int, i as int));
    }
    out.append(s.substring_char(copied, i));
    out
}

/// `s` without the prefix `p`, if it has it.
pub open spec fn stripped(s: Seq<char>, p: Seq<char>) -> Option<Seq<char>> {
    if p.is_prefix_of(s) {
        Some(s.skip(p.len() as int))
    } else {
        None
    }
}

/// Whether `s` begins with `p`.
pub fn starts_with(s: &str, p: &str) -> (found: bool)
    ensures
        found == p@.is_prefix_of(s@),
{
    let text: Vec<char> = chars_of(s);
    let prefix: Vec<char> = chars_of(p);
    assert(s@.skip(0) == s@);
    occurs_at(&text, 0, &prefix)
}

/// What follows the prefix `p` in `s`, if `s` begins with it.
pub fn strip_prefix<'a>(s: &'a str, p: &str) -> (rest: Option<&'a str>)
    ensures
        match rest {
            Some(r) => stripped(s@, p@) == Some(r@),
            None => stripped(s@, p@) is None,
        },
{
    if starts_with(s, p) {
        let n: usize = s.unicode_len();
        let m: usize = p.unicode_len();
        Some(s.substring_char(m, n))
    } else {
        None
    }
}

/// A line as it stands before its line feed, without the carriage return that
/// belongs to the line ending.
pub open spec fn without_return(line: Seq<char>) -> Seq<char> {
    if line.len() > 0 && line.last() == '\r' {
        line.drop_last()
    } else {
        line
    }
}

/// The lines of `s` from position `from` on, where the line that holds
/// position `at` begins at `from`. A line ends at a line feed or at a carriage
/// return and a line feed; the last ending is optional.
pub open spec fn lines_from(s: Seq<char>, from: int, at: int) -> Seq<Seq<char>>
    recommends
        0 <= from <= at <= s.len(),
    decreases s.len() - at,
{
    if at >= s.len() {
        if from < s.len() {
            seq![s.subrange(from, s.len() as int)]
        } else {
            Seq::empty()
        }
    } else if s[at] == '\n' {
        seq![without_return(s.subrange(from, at))] + lines_from(s, at + 1, at + 1)
    } else {
        lines_from(s, from, at + 1)
    }
}

/// The lines of `s`.
pub open spec fn lines(s: Seq<char>) -> Seq<Seq<char>> {
    lines_from(s, 0, 0)
}

/// The characters of each of several strings.
pub open spec fn views(v: Seq<String>) -> Seq<Seq<char>> {
    v.map_values(|s: String| s@)
}

/// Splits `s` into its lines.
pub fn split_lines(s: &str) -> (out: Vec<String>)
    ensures
        views(out@) == lines(s@),
{
    let text: Vec<char> = chars_of(s);
    let mut out: Vec<String> = Vec::new();
    let mut from: usize = 0;
    let mut at: usize = 0;
    assert(views(out@) + lines_from(s@, 0, 0) == lines(s@));
    while at < text.len()
        invariant
            text@ == s@,
            from <= at <= text.len(),
            views(out@) + lines_from(s@, from as int, at as int) == lines(s@),
        decreases s@.len() - at,
    {
        if text[at] == '\n' {
            let mut end: usize = at;
            if from < at && text[at - 1] == '\r' {
                end = at - 1;
            }
            let line: String = s.substring_char(from, end).to_string();
            proof {
                let raw = s@.subrange(from as int, at as int);
                assert(line@ == without_return(raw)) by {
                    if from < at {
                        assert(raw.last() == s@[at - 1]);
                        assert(raw.drop_last() == s@.subrange(from as int, at - 1));
                    }
                }
                let tail = lines_from(s@, at + 1, at + 1);
                assert(views(out@) + (seq![line@] + tail) == views(out@.push(line)) + tail);
            }
            out.push(line);
            from = at + 1;
        }
        at += 1;
    }
    if from < at {
        let line: String = s.substring_char(from, at).to_string();
        proof {
            assert(views(out@) + seq![line@] == views(out@.push(line)));
        }
        out.push(line);
    } else {
        assert(views(out@) + Seq::<Seq<char>>::empty() == views(out@));
    }
    out
}

/// The value of a decimal digit.
pub open spec fn digit_value(c: char) -> int {
    c as int - '0' as int
}

/// Whether `c` is a decimal digit.
pub open spec fn is_digit(c: char) -> bool {
    '0' <= c <= '9'
}

/// Whether every character of `s` is a decimal digit.
pub open spec fn all_digits(s: Seq<char>) -> bool {
    forall|i: int| 0 <= i < s.len() ==> is_digit(#[trigger] s[i])
}

/// The number that a row of decimal digits denotes.
pub open spec fn number(s: Seq<char>) -> int
    decreases s.len(),
{
    if s.len() == 0 {
        0
    } else {
        10 * number(s.drop_last()) + digit_value(s.last())
    }
}

/// The digits of a number's text: what follows an optional plus sign.
pub open spec fn unsigned_digits(s: Seq<char>) -> Seq<char> {
    if s.len() > 0 && s[0] == '+' {
        s.skip(1)
    } else {
        s
    }
}

/// The 16-bit number that `s` denotes: an optional plus sign and then one or
/// more decimal digits, and nothing else.
pub open spec fn u16_value(s: Seq<char>) -> Option<int> {
    let digits = unsigned_digits(s);
    if digits.len() > 0 && all_digits(digits) && number(digits) <= u16::MAX {
        Some(number(digits))
    } else {
        None
    }
}

/// A longer row of digits denotes no smaller number.
proof fn lemma_number_grows(s: Seq<char>, i: int)
    requires
        all_digits(s),
        0 <= i <= s.len(),
    ensures
        0 <= number(s.take(i)) <= number(s),
    decreases s.len(),
{
    if s.len() > 0 {
        let init = s.drop_last();
        assert(is_digit(s.last()));
        assert(all_digits(init)) by {
            assert forall|j: int| 0 <= j < init.len() implies is_digit(#[trigger] init[j]) by {
                assert(is_digit(s[j]));
            }
        }
        lemma_number_grows(init, init.len() as int);
        assert(init.take(init.len() as int) == init);
        if i < s.len() {
            lemma_number_grows(init, i);
            assert(init.take(i) == s.take(i));
        } else {
            assert(s.take(i) == s);
        }
    } else {
        assert(s.take(i) == s);
    }
}

/// Reads a 16-bit number in decimal.
pub fn parse_u16(s: &str) -> (n: Option<u16>)
    ensures
        n is Some == u16_value(s@) is Some,
        n matches Some(v) ==> u16_value(s@) == Some(v as int),
{
    let text: Vec<char> = chars_of(s);
    let mut i: usize = 0;
    if text.len() > 0 && text[0] == '+' {
        i = 1;
    }
    let ghost digits = unsigned_digits(s@);
    let ghost skipped: int = i as int;
    if i == text.len() {
        return None;
    }
    let mut value: u32 = 0;
    assert(digits.take(0) == Seq::<char>::empty());
    while i < text.len()
        invariant
            text@ == s@,
            0 <= skipped <= 1,
            skipped <= i <= text.len(),
            digits == s@.skip(skipped),
            digits == unsigned_digits(s@),
            digits.len() > 0,
            value <= u16::MAX,
            value == number(digits.take(i - skipped)),
            forall|j: int| 0 <= j < i - skipped ==> is_digit(#[trigger] digits[j]),
        decreases text.len() - i,
    {
        let c: char = text[i];
        assert(c == digits[i - skipped]);
        if c < '0' || c > '9' {
            assert(!is_digit(digits[i - skipped]));
            return None;
        }
        let digit: u32 = c as u32 - '0' as u32;
        value = 10 * value + digit;
        i += 1;
        proof {
            let seen = digits.take(i - skipped);
            assert(seen.drop_last() == digits.take(i - skipped - 1));
            assert(seen.last() == c);
        }
        if value > 65535 {
            proof {
                if all_digits(digits) {
                    lemma_number_grows(digits, i - skipped);
                }
            }
            return None;
        }
    }
    assert(digits.take(i - skipped) == digits);
    Some(value as u16)
}

/// The decimal text of a number.
pub open spec fn decimal(n: nat) -> Seq<char>
    decreases n,
{
    let last = ('0' as int + n % 10) as char;
    if n < 10 {
        seq![last]
    } else {
        decimal(n / 10).push(last)
    }
}

/// The text of one decimal digit.
fn digit_text(d: u64) -> (out: &'static str)
    requires
        d < 10,
    ensures
        out@ == seq![('0' as int + d) as char],
{
    proof {
        reveal_strlit("0");
        reveal_strlit("1");
        reveal_strlit("2");
        reveal_strlit("3");
        reveal_strlit("4");
        reveal_strlit("5");
        reveal_strlit("6");
        reveal_strlit("7");
        reveal_strlit("8");
        reveal_strlit("9");
    }
    if d == 0 {
        "0"
    } else if d == 1 {
        "1"
    } else if d == 2 {
        "2"
    } else if d == 3 {
        "3"
    } else if d == 4 {
        "4"
    } else if d == 5 {
        "5"
    } else if d == 6 {
        "6"
    } else if d == 7 {
        "7"
    } else if d == 8 {
        "8"
    } else {
        "9"
    }
}

/// Writes a number in decimal.
pub fn decimal_text(n: u64) -> (out: String)
    ensures
        out@ == decimal(n as nat),
    decreases n,
{
    let mut out: String = String::new();
    if n >= 10 {
        out = decimal_text(n / 10);
    }
    out.append(digit_text(n % 10));
    out
}

/// Whether `pat` stands in `s` anywhere.
pub open spec fn occurs(pat: Seq<char>, s: Seq<char>) -> bool {
    exists|i: int| 0 <= i <= s.len() && pat.is_prefix_of(#[trigger] s.skip(i))
}

/// A text without the pattern stays as it is.
pub proof fn law_replaced_without_occurrence(s: Seq<char>, pat: Seq<char>, with: Seq<char>)
    requires
        !occurs(pat, s),
    ensures
        replaced(s, pat, with) == s,
    decreases s.len(),
{
    if s.len() > 0 {
        assert(s.skip(0) == s);
        assert(!pat.is_prefix_of(s.skip(0)));
        let rest = s.skip(1);
        assert forall|i: int| 0 <= i <= rest.len() implies !pat.is_prefix_of(
            #[trigger] rest.skip(i),
        ) by {
            assert(rest.skip(i) == s.skip(i + 1));
        }
        law_replaced_without_occurrence(rest, pat, with);
        assert(seq![s[0]] + rest == s);
    }
}

/// A text that is the pattern becomes the replacement.
pub(crate) proof fn lemma_replaced_pattern(pat: Seq<char>, with: Seq<char>)
    requires
        pat.len() > 0,
    ensures
        replaced(pat, pat, with) == with,
{
    assert(pat.is_prefix_of(pat));
    let rest = pat.skip(pat.len() as int);
    assert(rest == Seq::<char>::empty());
    assert(replaced(rest, pat, with) == rest);
    assert(with + Seq::<char>::empty() == with);
}

/// Replacing works on both sides of a character that is not in the pattern.
proof fn lemma_replaced_around(
    a: Seq<char>,
    c: char,
    b: Seq<char>,
    pat: Seq<char>,
    with: Seq<char>,
)
    requires
        pat.len() > 0,
        !pat.contains(c),
    ensures
        replaced(a + seq![c] + b, pat, with) == replaced(a, pat, with) + seq![c] + replaced(
            b,
            pat,
            with,
        ),
    decreases a.len(),
{
    let whole = a + seq![c] + b;
    let n = pat.len() as int;
    let tail = replaced(b, pat, with);
    assert(whole[a.len() as int] == c);
    if pat.is_prefix_of(whole) {
        assert(n <= a.len()) by {
            if n > a.len() {
                assert(pat[a.len() as int] == whole[a.len() as int]);
            }
        }
        assert(pat.is_prefix_of(a)) by {
            assert(a.subrange(0, n) == whole.subrange(0, n));
        }
        lemma_replaced_around(a.skip(n), c, b, pat, with);
        assert(whole.skip(n) == a.skip(n) + seq![c] + b);
        let head = replaced(a.skip(n), pat, with);
        assert(with + (head + seq![c] + tail) == (with + head) + seq![c] + tail);
    } else if a.len() == 0 {
        assert(whole[0] == c);
        assert(whole.skip(1) == b);
        assert(replaced(a, pat, with) == Seq::<char>::empty());
        assert(Seq::<char>::empty() + seq![c] + tail == seq![c] + tail);
    } else {
        assert(!pat.is_prefix_of(a)) by {
            if pat.is_prefix_of(a) {
                assert(a.subrange(0, n) == whole.subrange(0, n));
            }
        }
        lemma_replaced_around(a.skip(1), c, b, pat, with);
        assert(whole.skip(1) == a.skip(1) + seq![c] + b);
        assert(whole[0] == a[0]);
        let head = replaced(a.skip(1), pat, with);
        assert(seq![a[0]] + (head + seq![c] + tail) == (seq![a[0]] + head) + seq![c] + tail);
    }
}

/// Words with a space between each two.
pub open spec fn spaced(words: Seq<Seq<char>>) -> Seq<char>
    decreases words.len(),
{
    if words.len() == 0 {
        Seq::empty()
    } else if words.len() == 1 {
        words[0]
    } else {
        words[0] + seq![' '] + spaced(words.skip(1))
    }
}

/// Each word with the pattern replaced in it.
pub open spec fn replaced_each(
    words: Seq<Seq<char>>,
    pat: Seq<char>,
    with: Seq<char>,
) -> Seq<Seq<char>> {
    words.map_values(|word: Seq<char>| replaced(word, pat, with))
}

/// A pattern without a space is replaced in each word by itself.
pub(crate) proof fn lemma_replaced_spaced(
    words: Seq<Seq<char>>,
    pat: Seq<char>,
    with: Seq<char>,
)
    requires
        pat.len() > 0,
        !pat.contains(' '),
    ensures
        replaced(spaced(words), pat, with) == spaced(replaced_each(words, pat, with)),
    decreases words.len(),
{
    let each = replaced_each(words, pat, with);
    if words.len() > 1 {
        lemma_replaced_spaced(words.skip(1), pat, with);
        lemma_replaced_around(words[0], ' ', spaced(words.skip(1)), pat, with);
        assert(each.skip(1) == replaced_each(words.skip(1), pat, with));
    }
}

} // verus!
