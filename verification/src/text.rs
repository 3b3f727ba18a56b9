//! Text as the statusline reads and writes it: white space, lines, columns and
//! decimal numbers, each with its meaning on sequences of characters.

use vstd::prelude::*;

verus! {

/// The text of an optional string.
pub open spec fn view_of(s: Option<String>) -> Option<Seq<char>> {
    match s {
        Some(t) => Some(t@),
        None => None,
    }
}

/// The text of an optional string slice.
pub open spec fn str_view_of(s: Option<&str>) -> Option<Seq<char>> {
    match s {
        Some(t) => Some(t@),
        None => None,
    }
}

/// The characters with the Unicode property `White_Space`.
pub open spec fn is_white_space(c: char) -> bool {
    ||| '\u{9}' <= c <= '\u{d}'
    ||| c == '\u{20}'
    ||| c == '\u{85}'
    ||| c == '\u{a0}'
    ||| c == '\u{1680}'
    ||| '\u{2000}' <= c <= '\u{200a}'
    ||| c == '\u{2028}'
    ||| c == '\u{2029}'
    ||| c == '\u{202f}'
    ||| c == '\u{205f}'
    ||| c == '\u{3000}'
}

/// `s` without the white space at its two ends.
pub open spec fn trimmed(s: Seq<char>) -> Seq<char>
    decreases s.len(),
{
    if s.len() == 0 {
        s
    } else if is_white_space(s.first()) {
        trimmed(s.drop_first())
    } else if is_white_space(s.last()) {
        trimmed(s.drop_last())
    } else {
        s
    }
}

/// `s` holds nothing but white space.
pub open spec fn is_blank(s: Seq<char>) -> bool {
    forall|i: int| 0 <= i < s.len() ==> is_white_space(#[trigger] s[i])
}

/// Says whether a character is white space.
pub fn white_space(c: char) -> (yes: bool)
    ensures
        yes == is_white_space(c),
{
    ('\u{9}' <= c && c <= '\u{d}') || c == '\u{20}' || c == '\u{85}' || c == '\u{a0}' || c
        == '\u{1680}' || ('\u{2000}' <= c && c <= '\u{200a}') || c == '\u{2028}' || c == '\u{2029}'
        || c == '\u{202f}' || c == '\u{205f}' || c == '\u{3000}'
}

/// The characters of `s`, in order.
pub fn characters(s: &str) -> (chars: Vec<char>)
    ensures
        chars@ == s@,
{
    let mut chars: Vec<char> = Vec::new();
    for c in it: s.chars()
        invariant
            chars@ == it.seq().take(it.index() as int),
            it.seq() == s@,
    {
        chars.push(c);
    }
    chars
}

/// Takes the white space off the two ends of `s`.
pub fn trim(s: &str) -> (inner: String)
    ensures
        inner@ == trimmed(s@),
{
    let chars = characters(s);
    let mut lo: usize = 0;
    let mut hi: usize = chars.len();
    assert(chars@.subrange(0, hi as int) == chars@);
    while lo < hi && white_space(chars[lo])
        invariant
            lo <= hi == chars.len(),
            trimmed(chars@) == trimmed(chars@.subrange(lo as int, hi as int)),
        decreases hi - lo,
    {
        assert(chars@.subrange(lo as int, hi as int).drop_first() == chars@.subrange(
            lo + 1,
            hi as int,
        ));
        lo = lo + 1;
    }
    while lo < hi && white_space(chars[hi - 1])
        invariant
            lo <= hi <= chars.len(),
            lo < hi ==> !is_white_space(chars@[lo as int]),
            trimmed(chars@) == trimmed(chars@.subrange(lo as int, hi as int)),
        decreases hi,
    {
        assert(chars@.subrange(lo as int, hi as int).drop_last() == chars@.subrange(
            lo as int,
            hi - 1,
        ));
        hi = hi - 1;
    }
    s.substring_char(lo, hi).to_owned()
}

/// The index of the first `c` in `s`, or the length of `s` when it has none.
pub open spec fn position(s: Seq<char>, c: char) -> nat
    decreases s.len(),
{
    if s.len() == 0 || s[0] == c {
        0
    } else {
        1 + position(s.drop_first(), c)
    }
}

/// A line without the carriage return that ends it, if one does.
pub open spec fn without_return(line: Seq<char>) -> Seq<char> {
    if line.len() > 0 && line.last() == '\r' {
        line.drop_last()
    } else {
        line
    }
}

/// The lines of `s`. A line ends at a line feed, or at a carriage return with a
/// line feed behind it; neither belongs to the line. The end of the last line may
/// be missing.
pub open spec fn lines(s: Seq<char>) -> Seq<Seq<char>>
    decreases s.len(),
{
    let end = position(s, '\n') as int;
    if s.len() == 0 {
        seq![]
    } else if end < s.len() {
        seq![without_return(s.take(end))] + lines(s.skip(end + 1))
    } else {
        seq![s]
    }
}

/// The columns of a line, with a tab between each two.
pub open spec fn columns(line: Seq<char>) -> Seq<Seq<char>>
    decreases line.len(),
{
    let end = position(line, '\t') as int;
    if end < line.len() {
        seq![line.take(end)] + columns(line.skip(end + 1))
    } else {
        seq![line]
    }
}

/// Finds the first `c` in `s`.
pub fn find(s: &[char], c: char) -> (at: usize)
    ensures
        at == position(s@, c),
        at <= s@.len(),
        at < s@.len() ==> s@[at as int] == c,
{
    let mut at: usize = 0;
    assert(s@.skip(0) == s@);
    while at < s.len() && s[at] != c
        invariant
            at <= s.len(),
            position(s@, c) == at + position(s@.skip(at as int), c),
        decreases s.len() - at,
    {
        assert(s@.skip(at as int).drop_first() == s@.skip(at + 1));
        at = at + 1;
    }
    at
}

/// Says whether `s` holds nothing but white space.
pub fn blank(s: &[char]) -> (yes: bool)
    ensures
        yes == is_blank(s@),
{
    let mut i: usize = 0;
    while i < s.len()
        invariant
            i <= s.len(),
            forall|j: int| 0 <= j < i ==> is_white_space(#[trigger] s@[j]),
        decreases s.len() - i,
    {
        if !white_space(s[i]) {
            return false;
        }
        i = i + 1;
    }
    true
}

pub open spec fn is_digit(c: char) -> bool {
    '0' <= c <= '9'
}

/// The number that a digit stands for.
pub open spec fn digit_value(c: char) -> nat
    recommends
        is_digit(c),
{
    (c as nat - '0' as nat) as nat
}

/// The number that a row of digits stands for.
pub open spec fn numeral_value(digits: Seq<char>) -> nat
    decreases digits.len(),
{
    if digits.len() == 0 {
        0
    } else {
        numeral_value(digits.drop_last()) * 10 + digit_value(digits.last())
    }
}

/// `s` without the plus sign in front of it, if it has one.
pub open spec fn without_plus(s: Seq<char>) -> Seq<char> {
    if s.len() > 0 && s[0] == '+' {
        s.drop_first()
    } else {
        s
    }
}

/// A count as text: one or more digits with at most one plus sign in front, for a
/// number that fits in 64 bits. Anything else is no count.
pub open spec fn count(s: Seq<char>) -> Option<nat> {
    let digits = without_plus(s);
    if digits.len() > 0 && (forall|i: int| 0 <= i < digits.len() ==> is_digit(#[trigger] digits[i]))
        && numeral_value(digits) <= u64::MAX {
        Some(numeral_value(digits))
    } else {
        None
    }
}

proof fn lemma_value_grows(digits: Seq<char>, n: int)
    requires
        0 <= n <= digits.len(),
    ensures
        numeral_value(digits.take(n)) <= numeral_value(digits),
    decreases digits.len(),
{
    if n < digits.len() {
        lemma_value_grows(digits.drop_last(), n);
        assert(digits.drop_last().take(n) == digits.take(n));
    } else {
        assert(digits.take(n) == digits);
    }
}

/// Reads a count.
pub fn parse_count(s: &[char]) -> (n: Option<u64>)
    ensures
        n is Some <==> count(s@) is Some,
        n matches Some(v) ==> count(s@) == Some(v as nat),
{
    let start: usize = if s.len() > 0 && s[0] == '+' {
        1
    } else {
        0
    };
    let ghost digits = without_plus(s@);
    assert(digits == s@.skip(start as int));
    if start == s.len() {
        return None;
    }
    let mut n: u64 = 0;
    let mut i: usize = start;
    assert(digits.take(0) == Seq::<char>::empty());
    while i < s.len()
        invariant
            start <= i <= s.len(),
            digits == without_plus(s@),
            digits == s@.skip(start as int),
            n == numeral_value(digits.take(i - start)),
            forall|j: int| 0 <= j < i - start ==> is_digit(#[trigger] digits[j]),
        decreases s.len() - i,
    {
        let c = s[i];
        let ghost k = i - start;
        assert(digits[k] == c);
        if !('0' <= c && c <= '9') {
            return None;
        }
        let d: u64 = (c as u32 - '0' as u32) as u64;
        proof {
            assert(digits.take(k + 1).drop_last() == digits.take(k));
            assert(numeral_value(digits.take(k + 1)) == n * 10 + d);
            lemma_value_grows(digits, k + 1);
        }
        if n > (u64::MAX - d) / 10 {
            return None;
        }
        n = n * 10 + d;
        i = i + 1;
    }
    assert(digits.take(s.len() - start) == digits);
    Some(n)
}

pub open spec fn digit(d: nat) -> char
    recommends
        d < 10,
{
    ('0' as nat + d) as char
}

/// `n` in decimal digits, without leading zeros.
pub open spec fn decimal(n: nat) -> Seq<char>
    decreases n,
{
    if n < 10 {
        seq![digit(n)]
    } else {
        decimal(n / 10).push(digit(n % 10))
    }
}

fn digit_text(d: u32) -> (text: &'static str)
    requires
        d < 10,
    ensures
        text@ == seq![digit(d as nat)],
{
    proof {
        reveal_strlit("0");
        reveal_strlit("1");
        reveal_strlit("2");
        reveal_strlit("3");
        reveal_strlit("4");
        reveal_strlit("5");
        reveal_strlit("6");
        reveal_strlit("7");
        reveal_strlit("8");
        reveal_strlit("9");
    }
    match d {
        0 => "0",
        1 => "1",
        2 => "2",
        3 => "3",
        4 => "4",
        5 => "5",
        6 => "6",
        7 => "7",
        8 => "8",
        _ => "9",
    }
}

/// Writes `n` in decimal digits.
pub fn decimal_text(n: u32) -> (text: String)
    ensures
        text@ == decimal(n as nat),
    decreases n,
{
    if n < 10 {
        digit_text(n).to_owned()
    } else {
        let mut text = decimal_text(n / 10);
        text.append(digit_text(n % 10));
        text
    }
}

/// The decimal text of a number is made of digits, and stands for that number.
pub proof fn decimal_stands_for_its_number(n: nat)
    ensures
        decimal(n).len() > 0,
        forall|i: int| 0 <= i < decimal(n).len() ==> is_digit(#[trigger] decimal(n)[i]),
        numeral_value(decimal(n)) == n,
    decreases n,
{
    if n < 10 {
        assert(decimal(n).drop_last() == Seq::<char>::empty());
        assert(numeral_value(decimal(n).drop_last()) == 0);
    } else {
        decimal_stands_for_its_number(n / 10);
        assert(decimal(n).drop_last() == decimal(n / 10));
    }
}

/// Reading back the decimal text of a count gives the count.
pub proof fn count_reads_decimal(n: nat)
    requires
        n <= u64::MAX,
    ensures
        count(decimal(n)) == Some(n),
{
    decimal_stands_for_its_number(n);
    assert(is_digit(decimal(n)[0]));
}

/// Different numbers have different decimal texts.
pub proof fn decimal_is_injective(m: nat, n: nat)
    requires
        decimal(m) == decimal(n),
    ensures
        m == n,
{
    decimal_stands_for_its_number(m);
    decimal_stands_for_its_number(n);
}

/// Without a `c` in `s` there is no position before its end.
pub proof fn lemma_position_without(s: Seq<char>, c: char)
    requires
        forall|i: int| 0 <= i < s.len() ==> #[trigger] s[i] != c,
    ensures
        position(s, c) == s.len(),
    decreases s.len(),
{
    if s.len() > 0 {
        assert forall|i: int| 0 <= i < s.drop_first().len() implies #[trigger] s.drop_first()[i]
            != c by {
            assert(s.drop_first()[i] == s[i + 1]);
        }
        lemma_position_without(s.drop_first(), c);
    }
}

/// The first `c` in `s` with a `c` and more text behind it.
pub proof fn lemma_position_before(s: Seq<char>, c: char, rest: Seq<char>)
    ensures
        position(s, c) <= s.len(),
        position(s.push(c) + rest, c) == position(s, c),
    decreases s.len(),
{
    let all = s.push(c) + rest;
    if s.len() > 0 && s[0] != c {
        lemma_position_before(s.drop_first(), c, rest);
        assert(all.drop_first() == s.drop_first().push(c) + rest);
    } else {
        assert(all[0] == c);
    }
}

} // verus!
