use vstd::prelude::*;

verus! {

/// How the single fill character used for padding is chosen.
///
/// Whatever the variant, the fill is always resolved to exactly one
/// character before any padding happens.
pub enum FillSpec {
    /// Fill with this character, verbatim.
    Char(char),
    /// Fill with the first character of this text, or with a space
    /// when the text is empty.
    Text(String),
    /// Fill with the first character of this number's canonical decimal
    /// rendering: a minus sign when it is negative, its leading digit
    /// otherwise.
    Number(i64),
}

/// The decimal digit character for a digit value below ten.
pub open spec fn digit_char(d: int) -> char
    recommends
        0 <= d < 10,
{
    if d == 0 {
        '0'
    } else if d == 1 {
        '1'
    } else if d == 2 {
        '2'
    } else if d == 3 {
        '3'
    } else if d == 4 {
        '4'
    } else if d == 5 {
        '5'
    } else if d == 6 {
        '6'
    } else if d == 7 {
        '7'
    } else if d == 8 {
        '8'
    } else {
        '9'
    }
}

/// The most significant decimal digit of a non-negative number.
pub open spec fn leading_digit(n: int) -> int
    recommends
        0 <= n,
    decreases n,
{
    if n < 10 {
        n
    } else {
        leading_digit(n / 10)
    }
}

/// The first character of the canonical decimal rendering of a number:
/// a minus sign for a negative number, its leading digit otherwise.
pub open spec fn number_first_char(n: int) -> char {
    if n < 0 {
        '-'
    } else {
        digit_char(leading_digit(n))
    }
}

/// The single character that a fill specification resolves to.
pub open spec fn fill_char(fill: FillSpec) -> char {
    match fill {
        FillSpec::Char(c) => c,
        FillSpec::Text(s) => if s@.len() == 0 {
            ' '
        } else {
            s@[0]
        },
        FillSpec::Number(n) => number_first_char(n as int),
    }
}

fn digit_to_char(d: i64) -> (c: char)
    requires
        0 <= d < 10,
    ensures
        c == digit_char(d as int),
{
    if d == 0 {
        '0'
    } else if d == 1 {
        '1'
    } else if d == 2 {
        '2'
    } else if d == 3 {
        '3'
    } else if d == 4 {
        '4'
    } else if d == 5 {
        '5'
    } else if d == 6 {
        '6'
    } else if d == 7 {
        '7'
    } else if d == 8 {
        '8'
    } else {
        '9'
    }
}

fn leading_decimal_digit(n: i64) -> (d: i64)
    requires
        0 <= n,
    ensures
        0 <= d < 10,
        d as int == leading_digit(n as int),
{
    let mut m: i64 = n;
    while m >= 10
        invariant
            0 <= m,
            leading_digit(m as int) == leading_digit(n as int),
        decreases m,
    {
        m = m / 10;
    }
    m
}

/// Resolves a fill specification to the one character used for padding.
pub fn resolve_fill(fill: &FillSpec) -> (c: char)
    ensures
        c == fill_char(*fill),
{
    match fill {
        FillSpec::Char(ch) => *ch,
        FillSpec::Text(s) => if s.as_str().unicode_len() == 0 {
            ' '
        } else {
            s.as_str().get_char(0)
        },
        FillSpec::Number(n) => if *n < 0 {
            '-'
        } else {
            digit_to_char(leading_decimal_digit(*n))
        },
    }
}

} // verus!
