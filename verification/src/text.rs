//! Text helpers: comparison of string slices, and decimal numerals.

use vstd::prelude::*;
use vstd::string::*;

verus! {

/// Whether two string slices hold the same characters.
pub(crate) fn same_text(a: &str, b: &str) -> (same: bool)
    ensures
        same == (a@ == b@),
{
    let first = a.to_owned();
    let second = b.to_owned();
    first == second
}

/// The character that stands for a decimal digit.
pub open spec fn digit_char(d: nat) -> char
    recommends
        d < 10,
{
    if d == 0 {
        '0'
    } else if d == 1 {
        '1'
    } else if d == 2 {
        '2'
    } else if d == 3 {
        '3'
    } else if d == 4 {
        '4'
    } else if d == 5 {
        '5'
    } else if d == 6 {
        '6'
    } else if d == 7 {
        '7'
    } else if d == 8 {
        '8'
    } else {
        '9'
    }
}

/// The decimal numeral of `n`, most significant digit first, without leading
/// zeros (`0` is written "0").
pub open spec fn decimal_text(n: nat) -> Seq<char>
    decreases n,
{
    if n < 10 {
        seq![digit_char(n)]
    } else {
        decimal_text(n / 10).push(digit_char(n % 10))
    }
}

/// A numeral is never empty.
pub proof fn lemma_decimal_text_nonempty(n: nat)
    ensures
        decimal_text(n).len() > 0,
    decreases n,
{
    if n >= 10 {
        lemma_decimal_text_nonempty(n / 10);
    }
}

/// The character is one of the ten decimal digits.
pub open spec fn is_digit(c: char) -> bool {
    c == '0' || c == '1' || c == '2' || c == '3' || c == '4' || c == '5' || c == '6' || c == '7'
        || c == '8' || c == '9'
}

/// Every character of the text is a decimal digit.
pub open spec fn all_digits(text: Seq<char>) -> bool {
    forall|i: int| 0 <= i < text.len() ==> is_digit(#[trigger] text[i])
}

/// The number that a decimal digit stands for.
pub open spec fn digit_value(c: char) -> nat {
    if c == '1' {
        1
    } else if c == '2' {
        2
    } else if c == '3' {
        3
    } else if c == '4' {
        4
    } else if c == '5' {
        5
    } else if c == '6' {
        6
    } else if c == '7' {
        7
    } else if c == '8' {
        8
    } else if c == '9' {
        9
    } else {
        0
    }
}

/// The number that a text of decimal digits stands for.
pub open spec fn numeral_value(text: Seq<char>) -> nat
    decreases text.len(),
{
    if text.len() == 0 {
        0
    } else {
        numeral_value(text.drop_last()) * 10 + digit_value(text.last())
    }
}

/// A numeral holds digits only.
pub proof fn lemma_decimal_text_digits(n: nat)
    ensures
        all_digits(decimal_text(n)),
    decreases n,
{
    if n >= 10 {
        lemma_decimal_text_digits(n / 10);
    }
}

/// A numeral stands for the number it was written for.
pub proof fn lemma_numeral_value_of_decimal_text(n: nat)
    ensures
        numeral_value(decimal_text(n)) == n,
    decreases n,
{
    let text = decimal_text(n);
    if n < 10 {
        assert(text.drop_last() =~= Seq::<char>::empty());
        assert(numeral_value(text.drop_last()) == 0);
    } else {
        lemma_numeral_value_of_decimal_text(n / 10);
        assert(text.drop_last() =~= decimal_text(n / 10));
        assert(text.last() == digit_char(n % 10));
    }
}

/// Different numbers have different numerals.
pub proof fn lemma_decimal_text_injective(m: nat, n: nat)
    requires
        decimal_text(m) == decimal_text(n),
    ensures
        m == n,
{
    lemma_numeral_value_of_decimal_text(m);
    lemma_numeral_value_of_decimal_text(n);
}

/// A text that is made of digits followed by a rest that starts with
/// something else can be taken apart in one way only.
pub proof fn lemma_digits_end_at_first_other(
    digits: Seq<char>,
    rest: Seq<char>,
    other_digits: Seq<char>,
    other_rest: Seq<char>,
)
    requires
        all_digits(digits),
        all_digits(other_digits),
        rest.len() > 0 && !is_digit(rest[0]),
        other_rest.len() > 0 && !is_digit(other_rest[0]),
        digits + rest == other_digits + other_rest,
    ensures
        digits == other_digits,
        rest == other_rest,
{
    let whole = digits + rest;
    let other_whole = other_digits + other_rest;
    if digits.len() < other_digits.len() {
        assert(whole[digits.len() as int] == rest[0]);
        assert(other_whole[digits.len() as int] == other_digits[digits.len() as int]);
        assert(false);
    }
    if other_digits.len() < digits.len() {
        assert(other_whole[other_digits.len() as int] == other_rest[0]);
        assert(whole[other_digits.len() as int] == digits[other_digits.len() as int]);
        assert(false);
    }
    assert(digits =~= whole.subrange(0, digits.len() as int));
    assert(other_digits =~= other_whole.subrange(0, digits.len() as int));
    assert(rest =~= whole.subrange(digits.len() as int, whole.len() as int));
    assert(other_rest =~= other_whole.subrange(digits.len() as int, whole.len() as int));
}

/// A text that ends in digits, after a start that is empty or ends with
/// something else, can be taken apart in one way only.
pub proof fn lemma_digits_start_after_last_other(
    start: Seq<char>,
    digits: Seq<char>,
    other_start: Seq<char>,
    other_digits: Seq<char>,
)
    requires
        all_digits(digits),
        all_digits(other_digits),
        start.len() > 0 ==> !is_digit(start.last()),
        other_start.len() > 0 ==> !is_digit(other_start.last()),
        start + digits == other_start + other_digits,
    ensures
        start == other_start,
        digits == other_digits,
{
    let whole = start + digits;
    let other_whole = other_start + other_digits;
    if start.len() < other_start.len() {
        let at = other_start.len() - 1;
        assert(other_whole[at] == other_start.last());
        assert(whole[at] == digits[at - start.len()]);
        assert(false);
    }
    if other_start.len() < start.len() {
        let at = start.len() - 1;
        assert(whole[at] == start.last());
        assert(other_whole[at] == other_digits[at - other_start.len()]);
        assert(false);
    }
    assert(start =~= whole.subrange(0, start.len() as int));
    assert(other_start =~= other_whole.subrange(0, start.len() as int));
    assert(digits =~= whole.subrange(start.len() as int, whole.len() as int));
    assert(other_digits =~= other_whole.subrange(start.len() as int, whole.len() as int));
}

fn digit_str(d: usize) -> (s: &'static str)
    requires
        d < 10,
    ensures
        s@ == seq![digit_char(d as nat)],
{
    proof {
        reveal_strlit("0");
        reveal_strlit("1");
        reveal_strlit("2");
        reveal_strlit("3");
        reveal_strlit("4");
        reveal_strlit("5");
        reveal_strlit("6");
        reveal_strlit("7");
        reveal_strlit("8");
        reveal_strlit("9");
    }
    let s = if d == 0 {
        "0"
    } else if d == 1 {
        "1"
    } else if d == 2 {
        "2"
    } else if d == 3 {
        "3"
    } else if d == 4 {
        "4"
    } else if d == 5 {
        "5"
    } else if d == 6 {
        "6"
    } else if d == 7 {
        "7"
    } else if d == 8 {
        "8"
    } else {
        "9"
    };
    assert(s@ =~= seq![digit_char(d as nat)]);
    s
}

/// Writes `n` as a decimal numeral.
pub fn decimal_string(n: usize) -> (s: String)
    ensures
        s@ == decimal_text(n as nat),
    decreases n,
{
    if n < 10 {
        String::from_str(digit_str(n))
    } else {
        let mut s = decimal_string(n / 10);
        s.append(digit_str(n % 10));
        s
    }
}

} // verus!
