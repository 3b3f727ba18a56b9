//! What holds of every text: how it is trimmed, cut into lines and columns, and read
//! as a count.

use vstd::prelude::*;

use crate::text;

verus! {

/// An optional string and its text are there together, and hold the same characters.
pub proof fn optional_text_is_kept(s: Option<String>, t: Option<&str>)
    ensures
        s is Some <==> text::view_of(s) is Some,
        s is Some ==> text::view_of(s)->0 == s->0@,
        t is Some <==> text::str_view_of(t) is Some,
        t is Some ==> text::str_view_of(t)->0 == t->0@,
{
}

/// White space, by code point.
pub proof fn white_space_by_code_point(c: char)
    ensures
        text::is_white_space(c) <==> {
            let u = c as u32;
            ||| 0x9 <= u <= 0xd
            ||| u == 0x20 || u == 0x85 || u == 0xa0 || u == 0x1680
            ||| 0x2000 <= u <= 0x200a
            ||| u == 0x2028 || u == 0x2029 || u == 0x202f || u == 0x205f || u == 0x3000
        },
{
}

/// Whatever white space stands around a text without any at its ends, trimming gives
/// that text.
pub proof fn trimming_gives_inner_text(before: Seq<char>, inner: Seq<char>, after: Seq<char>)
    requires
        forall|i: int| 0 <= i < before.len() ==> text::is_white_space(#[trigger] before[i]),
        forall|i: int| 0 <= i < after.len() ==> text::is_white_space(#[trigger] after[i]),
        inner.len() > 0,
        !text::is_white_space(inner[0]),
        !text::is_white_space(inner[inner.len() - 1]),
    ensures
        text::trimmed(before + inner + after) == inner,
    decreases before.len() + after.len(),
{
    let all = before + inner + after;
    if before.len() > 0 {
        assert(all[0] == before[0]);
        let rest = before.drop_first();
        assert forall|i: int| 0 <= i < rest.len() implies text::is_white_space(
            #[trigger] rest[i],
        ) by {
            assert(rest[i] == before[i + 1]);
        }
        assert(all.drop_first() == rest + inner + after);
        trimming_gives_inner_text(rest, inner, after);
    } else {
        assert(all[0] == inner[0]);
        if after.len() > 0 {
            assert(all.last() == after.last());
            let rest = after.drop_last();
            assert forall|i: int| 0 <= i < rest.len() implies text::is_white_space(
                #[trigger] rest[i],
            ) by {
                assert(rest[i] == after[i]);
            }
            assert(all.drop_last() == before + inner + rest);
            trimming_gives_inner_text(before, inner, rest);
        } else {
            assert(all == inner);
        }
    }
}

/// Trimming leaves nothing exactly of a text that is white space alone.
pub proof fn trimming_empties_white_space_alone(s: Seq<char>)
    ensures
        text::trimmed(s).len() == 0 <==> (forall|i: int|
            0 <= i < s.len() ==> text::is_white_space(#[trigger] s[i])),
    decreases s.len(),
{
    if s.len() > 0 {
        if text::is_white_space(s.first()) {
            let rest = s.drop_first();
            trimming_empties_white_space_alone(rest);
            if text::trimmed(s).len() == 0 {
                assert forall|i: int| 0 <= i < s.len() implies text::is_white_space(
                    #[trigger] s[i],
                ) by {
                    if i > 0 {
                        assert(rest[i - 1] == s[i]);
                    }
                }
            } else {
                let j = choose|j: int|
                    0 <= j < rest.len() && !text::is_white_space(#[trigger] rest[j]);
                assert(s[j + 1] == rest[j]);
            }
        } else {
            assert(!text::is_white_space(s[0]));
            if text::is_white_space(s.last()) {
                let rest = s.drop_last();
                trimming_empties_white_space_alone(rest);
                assert(rest[0] == s[0]);
            }
        }
    }
}

/// A text is blank exactly where trimming leaves nothing of it.
pub proof fn blank_text_trims_to_nothing(s: Seq<char>)
    ensures
        text::is_blank(s) <==> text::trimmed(s).len() == 0,
{
    trimming_empties_white_space_alone(s);
}

/// A position is the first of its character: there is none before it, and where there
/// is none at all it is the end.
pub proof fn position_is_the_first(s: Seq<char>, c: char)
    ensures
        text::position(s, c) <= s.len(),
        text::position(s, c) < s.len() ==> s[text::position(s, c) as int] == c,
        forall|i: int| 0 <= i < text::position(s, c) ==> #[trigger] s[i] != c,
    decreases s.len(),
{
    if s.len() > 0 && s[0] != c {
        let rest = s.drop_first();
        position_is_the_first(rest, c);
        assert forall|i: int| 0 <= i < text::position(s, c) implies #[trigger] s[i] != c by {
            if i > 0 {
                assert(rest[i - 1] == s[i]);
            }
        }
    }
}

/// Nothing has no lines, and a text without a line feed is a line of its own.
pub proof fn text_without_line_feed_is_one_line(line: Seq<char>)
    requires
        forall|i: int| 0 <= i < line.len() ==> #[trigger] line[i] != '\n',
    ensures
        line.len() == 0 ==> text::lines(line).len() == 0,
        line.len() > 0 ==> text::lines(line) == seq![line],
{
    text::lemma_position_without(line, '\n');
}

proof fn lemma_first_line(whole: Seq<char>, rest: Seq<char>)
    requires
        forall|i: int| 0 <= i < whole.len() ==> #[trigger] whole[i] != '\n',
    ensures
        text::lines(whole.push('\n') + rest) == seq![text::without_return(whole)] + text::lines(
            rest,
        ),
{
    let all = whole.push('\n') + rest;
    text::lemma_position_without(whole, '\n');
    text::lemma_position_before(whole, '\n', rest);
    assert(all.take(whole.len() as int) == whole);
    assert(all.skip(whole.len() as int + 1) == rest);
}

/// A line feed ends a line, and so does a carriage return with a line feed behind it;
/// what is behind them are further lines.
pub proof fn line_feed_ends_line(line: Seq<char>, rest: Seq<char>)
    requires
        forall|i: int| 0 <= i < line.len() ==> #[trigger] line[i] != '\n',
    ensures
        line.len() == 0 || line[line.len() - 1] != '\r' ==> text::lines(line.push('\n') + rest)
            == seq![line] + text::lines(rest),
        text::lines(line.push('\r').push('\n') + rest) == seq![line] + text::lines(rest),
{
    lemma_first_line(line, rest);
    let whole = line.push('\r');
    lemma_first_line(whole, rest);
    assert(whole.drop_last() == line);
}

/// A line without a tab is one column; a tab ends a column, and what is behind it are
/// further columns.
pub proof fn tab_ends_column(column: Seq<char>, rest: Seq<char>)
    requires
        forall|i: int| 0 <= i < column.len() ==> #[trigger] column[i] != '\t',
    ensures
        text::columns(column) == seq![column],
        text::columns(column.push('\t') + rest) == seq![column] + text::columns(rest),
{
    let all = column.push('\t') + rest;
    text::lemma_position_without(column, '\t');
    text::lemma_position_before(column, '\t', rest);
    assert(all.take(column.len() as int) == column);
    assert(all.skip(column.len() as int + 1) == rest);
}

/// A single digit counts for itself.
pub proof fn digit_is_a_count(c: char)
    requires
        '0' <= c <= '9',
    ensures
        text::count(seq![c]) == Some((c as int - 48) as nat),
{
    let s = seq![c];
    assert(text::without_plus(s) == s);
    assert(s.drop_last() == Seq::<char>::empty());
    assert(text::numeral_value(s.drop_last()) == 0);
    assert(text::is_digit(s[0]));
    assert(text::numeral_value(s) == text::digit_value(c));
}

/// A further digit makes a count ten times as large and adds the digit, as long as
/// that fits in 64 bits.
pub proof fn further_digit_multiplies_by_ten(s: Seq<char>, c: char)
    requires
        text::count(s) is Some,
        '0' <= c <= '9',
    ensures
        ({
            let n = text::count(s)->0 * 10 + (c as int - 48);
            &&& n <= u64::MAX ==> text::count(s.push(c)) == Some(n as nat)
            &&& n > u64::MAX ==> text::count(s.push(c)) is None
        }),
{
    let digits = text::without_plus(s);
    let longer = text::without_plus(s.push(c));
    assert(longer == digits.push(c));
    assert(longer.drop_last() == digits);
    assert forall|i: int| 0 <= i < longer.len() implies text::is_digit(#[trigger] longer[i]) by {
        if i < digits.len() {
            assert(longer[i] == digits[i]);
        }
    }
}

/// Nothing, a plus sign alone, and a text with anything but digits behind an optional
/// plus sign are no counts.
pub proof fn only_digits_count(s: Seq<char>)
    ensures
        text::count(s) is Some ==> {
            &&& s.len() > 0
            &&& s[0] == '+' || '0' <= s[0] <= '9'
            &&& s[0] == '+' ==> s.len() > 1
            &&& forall|i: int| 1 <= i < s.len() ==> '0' <= #[trigger] s[i] <= '9'
        },
{
    if text::count(s) is Some {
        let digits = text::without_plus(s);
        assert(text::is_digit(digits[0]));
        assert forall|i: int| 1 <= i < s.len() implies '0' <= #[trigger] s[i] <= '9' by {
            if s[0] == '+' {
                assert(digits[i - 1] == s[i]);
                assert(text::is_digit(digits[i - 1]));
            } else {
                assert(text::is_digit(digits[i]));
            }
        }
    }
}

/// One plus sign in front of a count changes nothing, and a second one spoils it.
pub proof fn plus_sign_is_optional(s: Seq<char>)
    ensures
        s.len() == 0 || s[0] != '+' ==> text::count(seq!['+'] + s) == text::count(s),
        s.len() > 0 && s[0] == '+' ==> text::count(seq!['+'] + s) is None,
{
    let signed = seq!['+'] + s;
    assert(signed.drop_first() == s);
    assert(text::without_plus(signed) == s);
    if s.len() > 0 && s[0] == '+' {
        assert(!text::is_digit(s[0]));
    }
}

/// Behind a text that has begun and is no count, nothing makes it one.
pub proof fn no_count_stays_none(s: Seq<char>, c: char)
    requires
        text::count(s) is None,
        s.len() > 1 || (s.len() == 1 && s[0] != '+'),
    ensures
        text::count(s.push(c)) is None,
{
    let digits = text::without_plus(s);
    let longer = text::without_plus(s.push(c));
    assert(longer == digits.push(c));
    assert(longer.drop_last() == digits);
    if forall|i: int| 0 <= i < longer.len() ==> text::is_digit(#[trigger] longer[i]) {
        assert forall|i: int| 0 <= i < digits.len() implies text::is_digit(
            #[trigger] digits[i],
        ) by {
            assert(longer[i] == digits[i]);
        }
        assert(text::numeral_value(digits) > u64::MAX);
    }
}

/// A count fits in 64 bits.
pub proof fn count_fits(t: Seq<char>)
    ensures
        text::count(t) matches Some(n) ==> n <= u64::MAX,
{
}

/// A number below ten is one digit; any other is the digits of its tenth part and the
/// digit that is left.
pub proof fn decimal_by_digits(n: nat)
    ensures
        n < 10 ==> text::decimal(n) == seq![(48 + n) as char],
        n >= 10 ==> {
            &&& text::decimal(n).len() == text::decimal(n / 10).len() + 1
            &&& text::decimal(n).drop_last() == text::decimal(n / 10)
            &&& text::decimal(n).last() as int == 48 + n % 10
        },
{
    if n >= 10 {
        assert(text::decimal(n).drop_last() == text::decimal(n / 10));
    }
}

/// The decimal text of a number is made of digits, without a zero in front unless it
/// is the number zero.
pub proof fn decimal_has_no_leading_zero(n: nat)
    ensures
        text::decimal(n).len() > 0,
        forall|i: int| 0 <= i < text::decimal(n).len() ==> '0' <= #[trigger] text::decimal(n)[i]
            <= '9',
        text::decimal(n)[0] == '0' ==> n == 0 && text::decimal(n).len() == 1,
    decreases n,
{
    if n >= 10 {
        decimal_has_no_leading_zero(n / 10);
        let shorter = text::decimal(n / 10);
        assert forall|i: int| 0 <= i < text::decimal(n).len() implies '0' <= #[trigger] text::decimal(
            n,
        )[i] <= '9' by {
            if i < shorter.len() {
                assert(text::decimal(n)[i] == shorter[i]);
            }
        }
        assert(text::decimal(n)[0] == shorter[0]);
    }
}

} // verus!
