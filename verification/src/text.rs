//! Numbers as decimal text, and texts joined into one.
//!
//! Text is modelled as a sequence of characters. A number is written in
//! decimal digits, most significant first, either as it is or padded with
//! leading zeros to a least width; padding never cuts digits off.

use vstd::prelude::*;

verus! {

/// The character of the decimal digit `d`.
pub open spec fn digit_char(d: nat) -> char {
    seq!['0', '1', '2', '3', '4', '5', '6', '7', '8', '9'][d as int]
}

/// The value of the decimal digit `c`, or -1 where `c` is no digit.
pub open spec fn digit_value(c: char) -> int {
    if c == '0' {
        0
    } else if c == '1' {
        1
    } else if c == '2' {
        2
    } else if c == '3' {
        3
    } else if c == '4' {
        4
    } else if c == '5' {
        5
    } else if c == '6' {
        6
    } else if c == '7' {
        7
    } else if c == '8' {
        8
    } else if c == '9' {
        9
    } else {
        -1
    }
}

/// Whether `c` is one of the ten decimal digits.
pub open spec fn is_decimal_digit(c: char) -> bool {
    digit_value(c) >= 0
}

/// The decimal numeral of `n`, without leading zeros (`"0"` for zero).
pub open spec fn decimal_text(n: nat) -> Seq<char>
    decreases n,
{
    if n < 10 {
        seq![digit_char(n)]
    } else {
        decimal_text(n / 10).push(digit_char(n % 10))
    }
}

/// The decimal numeral of `n`, padded with a leading zero to at least two
/// digits and never truncated.
pub open spec fn two_digit_text(n: nat) -> Seq<char> {
    if n < 10 {
        seq!['0', digit_char(n)]
    } else {
        decimal_text(n)
    }
}

/// The decimal numeral of `n`, padded with leading zeros to at least `width`
/// digits and never truncated.
pub open spec fn zero_padded_text(n: nat, width: nat) -> Seq<char> {
    let digits = decimal_text(n);
    if digits.len() >= width {
        digits
    } else {
        Seq::new((width - digits.len()) as nat, |i: int| '0') + digits
    }
}

/// The decimal numeral of the integer `n`: a minus sign before the numeral of
/// its magnitude where it is negative, no sign otherwise.
pub open spec fn signed_decimal_text(n: int) -> Seq<char> {
    if n < 0 {
        seq!['-'] + decimal_text((-n) as nat)
    } else {
        decimal_text(n as nat)
    }
}

/// The texts `parts` joined in order, with `separator` between each two.
pub open spec fn joined_text(parts: Seq<Seq<char>>, separator: Seq<char>) -> Seq<char>
    decreases parts.len(),
{
    if parts.len() == 0 {
        Seq::empty()
    } else if parts.len() == 1 {
        parts[0]
    } else {
        joined_text(parts.drop_last(), separator) + separator + parts.last()
    }
}

/// A digit's character has the digit as its value.
pub proof fn lemma_digit_value(d: nat)
    requires
        d < 10,
    ensures
        digit_value(digit_char(d)) == d,
        is_decimal_digit(digit_char(d)),
{
}

/// A decimal numeral is made of decimal digits, has at least one of them, and
/// has at least two once the number reaches ten.
pub proof fn lemma_decimal_text_digits(n: nat)
    ensures
        decimal_text(n).len() >= 1,
        n >= 10 ==> decimal_text(n).len() >= 2,
        forall|i: int|
            0 <= i < decimal_text(n).len() ==> is_decimal_digit(#[trigger] decimal_text(n)[i]),
    decreases n,
{
    if n >= 10 {
        lemma_decimal_text_digits(n / 10);
        lemma_digit_value(n % 10);
    } else {
        lemma_digit_value(n);
    }
}

/// Below one hundred the padded numeral is exactly the tens digit followed by
/// the units digit.
pub proof fn lemma_two_digit_text_below_hundred(n: nat)
    requires
        n < 100,
    ensures
        two_digit_text(n) == seq![digit_char(n / 10), digit_char(n % 10)],
{
    if n >= 10 {
        assert(decimal_text(n / 10) == seq![digit_char(n / 10)]);
    }
}

/// The one-character text of the decimal digit `d`.
pub fn digit_str(d: u8) -> (r: &'static str)
    requires
        d < 10,
    ensures
        r@ == seq![digit_char(d as nat)],
{
    proof {
        reveal_strlit("0");
        reveal_strlit("1");
        reveal_strlit("2");
        reveal_strlit("3");
        reveal_strlit("4");
        reveal_strlit("5");
        reveal_strlit("6");
        reveal_strlit("7");
        reveal_strlit("8");
        reveal_strlit("9");
    }
    match d {
        0 => "0",
        1 => "1",
        2 => "2",
        3 => "3",
        4 => "4",
        5 => "5",
        6 => "6",
        7 => "7",
        8 => "8",
        _ => "9",
    }
}

/// Appends the decimal numeral of `n` to `out`.
pub fn push_decimal(out: &mut String, n: u128)
    ensures
        final(out)@ == old(out)@ + decimal_text(n as nat),
    decreases n,
{
    if n >= 10 {
        push_decimal(out, n / 10);
    }
    let d: u8 = (n % 10) as u8;
    out.append(digit_str(d));
}

/// Appends the numeral of `n`, zero-padded to at least two digits, to `out`.
pub fn push_two_digits(out: &mut String, n: u128)
    ensures
        final(out)@ == old(out)@ + two_digit_text(n as nat),
{
    if n < 10 {
        out.append(digit_str(0));
    }
    push_decimal(out, n);
}

/// Appends the decimal numeral of the integer `n`, with a minus sign where it
/// is negative, to `out`.
pub fn push_signed_decimal(out: &mut String, n: i64)
    ensures
        final(out)@ == old(out)@ + signed_decimal_text(n as int),
{
    if n < 0 {
        out.append("-");
        proof {
            reveal_strlit("-");
        }
        let magnitude: u128 = (-(n as i128)) as u128;
        push_decimal(out, magnitude);
    } else {
        push_decimal(out, n as u128);
    }
}

/// Joins `parts` in order, with `separator` between each two.
pub fn join_texts(parts: &Vec<String>, separator: &str) -> (r: String)
    ensures
        r@ == joined_text(parts.deep_view(), separator@),
{
    let mut out = String::new();
    let mut i: usize = 0;
    while i < parts.len()
        invariant
            i <= parts.len(),
            out@ == joined_text(parts.deep_view().take(i as int), separator@),
        decreases parts.len() - i,
    {
        if i > 0 {
            out.append(separator);
        }
        out.append(parts[i].as_str());
        assert(parts.deep_view().take(i + 1).drop_last() =~= parts.deep_view().take(i as int));
        i += 1;
    }
    assert(parts.deep_view().take(parts.len() as int) =~= parts.deep_view());
    out
}

/// Appends `line` to `lines`.
pub fn push_line(lines: &mut Vec<String>, line: String)
    ensures
        final(lines).deep_view() == old(lines).deep_view().push(line@),
{
    lines.push(line);
}

} // verus!
