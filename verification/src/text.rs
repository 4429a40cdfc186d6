//! Numbers as the text that a table or a bar shows.
use crate::targets::{round_to_units, whole_units, UNIT};
use vstd::prelude::*;

verus! {

/// The character of the digit `d`, 0 to 9.
pub open spec fn digit(d: int) -> char {
    if d == 0 {
        '0'
    } else if d == 1 {
        '1'
    } else if d == 2 {
        '2'
    } else if d == 3 {
        '3'
    } else if d == 4 {
        '4'
    } else if d == 5 {
        '5'
    } else if d == 6 {
        '6'
    } else if d == 7 {
        '7'
    } else if d == 8 {
        '8'
    } else {
        '9'
    }
}

/// The decimal digits of `n`, without leading zeros.
pub open spec fn decimal(n: nat) -> Seq<char>
    decreases n,
{
    if n < 10 {
        seq![digit(n as int)]
    } else {
        decimal(n / 10).push(digit((n % 10) as int))
    }
}

/// The two decimal digits of `n`, 0 to 99.
pub open spec fn two_digits(n: int) -> Seq<char> {
    seq![digit(n / 10), digit(n % 10)]
}

/// What follows the whole units of an amount with `rest` thousandths left
/// over, 0 to 999: nothing where nothing is left, else a point and the
/// digits up to the last that is not zero.
pub open spec fn fraction(rest: int) -> Seq<char> {
    let tenths = digit(rest / 100);
    let hundredths = digit((rest / 10) % 10);
    let thousandths = digit(rest % 10);
    if rest == 0 {
        Seq::<char>::empty()
    } else if rest % 10 != 0 {
        seq!['.', tenths, hundredths, thousandths]
    } else if rest % 100 != 0 {
        seq!['.', tenths, hundredths]
    } else {
        seq!['.', tenths]
    }
}

/// The size of `n`.
pub open spec fn magnitude(n: int) -> nat {
    if n < 0 {
        (-n) as nat
    } else {
        n as nat
    }
}

/// The minus sign of a negative number, nothing for any other.
pub open spec fn minus(n: int) -> Seq<char> {
    if n < 0 {
        seq!['-']
    } else {
        Seq::<char>::empty()
    }
}

/// The whole number `n` in decimal digits, with a minus sign where it is
/// negative.
pub open spec fn integer_text_spec(n: int) -> Seq<char> {
    minus(n) + decimal(magnitude(n))
}

/// An amount of `thousandths` in units: the whole units, then the
/// thousandths that are left over as far as they are not zero, with a
/// minus sign where the amount is negative.
pub open spec fn amount_text_spec(thousandths: int) -> Seq<char> {
    minus(thousandths) + decimal(magnitude(thousandths) / (UNIT as nat)) + fraction(
        (magnitude(thousandths) % (UNIT as nat)) as int,
    )
}

/// The digit `d` as a text of its own.
pub fn digit_text(d: u64) -> (text: &'static str)
    requires
        d < 10,
    ensures
        text@ == seq![digit(d as int)],
{
    proof {
        reveal_strlit("0");
        reveal_strlit("1");
        reveal_strlit("2");
        reveal_strlit("3");
        reveal_strlit("4");
        reveal_strlit("5");
        reveal_strlit("6");
        reveal_strlit("7");
        reveal_strlit("8");
        reveal_strlit("9");
    }
    let text: &'static str = if d == 0 {
        "0"
    } else if d == 1 {
        "1"
    } else if d == 2 {
        "2"
    } else if d == 3 {
        "3"
    } else if d == 4 {
        "4"
    } else if d == 5 {
        "5"
    } else if d == 6 {
        "6"
    } else if d == 7 {
        "7"
    } else if d == 8 {
        "8"
    } else {
        "9"
    };
    assert(text@ =~= seq![digit(d as int)]);
    text
}

/// Writes the decimal digits of `n` behind `text`.
pub fn push_decimal(text: &mut String, n: u64)
    ensures
        final(text)@ == old(text)@ + decimal(n as nat),
    decreases n,
{
    if n >= 10 {
        push_decimal(text, n / 10);
    }
    text.append(digit_text(n % 10));
    proof {
        if n >= 10 {
            assert(old(text)@ + decimal((n / 10) as nat) + seq![digit((n % 10) as int)] =~= old(
                text,
            )@ + decimal((n / 10) as nat).push(digit((n % 10) as int)));
        } else {
            assert(n % 10 == n);
        }
    }
}

/// The size of `n`.
pub fn size_of(n: i64) -> (size: u64)
    ensures
        size == magnitude(n as int),
{
    if n < 0 {
        (-(n as i128)) as u64
    } else {
        n as u64
    }
}

/// The whole number `n` as a text.
pub fn integer_text(n: i64) -> (text: String)
    ensures
        text@ == integer_text_spec(n as int),
{
    let mut text = String::new();
    if n < 0 {
        proof {
            reveal_strlit("-");
        }
        text.append("-");
    }
    assert(text@ =~= minus(n as int));
    push_decimal(&mut text, size_of(n));
    text
}

/// An amount of `thousandths` as a text in units.
pub fn amount_text(thousandths: i64) -> (text: String)
    ensures
        text@ == amount_text_spec(thousandths as int),
{
    let size: u64 = size_of(thousandths);
    let rest: u64 = size % 1000;
    let mut text = String::new();
    if thousandths < 0 {
        proof {
            reveal_strlit("-");
        }
        text.append("-");
    }
    assert(text@ =~= minus(thousandths as int));
    push_decimal(&mut text, size / 1000);
    let ghost whole = text@;
    if rest != 0 {
        proof {
            reveal_strlit(".");
        }
        text.append(".");
        text.append(digit_text(rest / 100));
        if rest % 100 != 0 {
            text.append(digit_text((rest / 10) % 10));
        }
        if rest % 10 != 0 {
            text.append(digit_text(rest % 10));
        }
    }
    assert(text@ =~= whole + fraction(rest as int));
    text
}

/// An amount of `thousandths` as the text that stands behind a bar: its
/// whole units, rounded to the nearest, a half to the even neighbour.
pub fn whole_units_text(thousandths: i64) -> (text: String)
    ensures
        text@ == integer_text_spec(round_to_units(thousandths as int)),
{
    integer_text(whole_units(thousandths))
}

/// A position on the scale of a bar as a percentage with one digit behind
/// the point, such as `45.0%`.
pub open spec fn percent_text_spec(position: nat) -> Seq<char> {
    decimal(position / 10) + seq!['.', digit((position % 10) as int), '%']
}

/// A position on the scale of a bar as a percentage with one digit behind
/// the point.
pub fn percent_text(position: u32) -> (text: String)
    ensures
        text@ == percent_text_spec(position as nat),
{
    let mut text = String::new();
    push_decimal(&mut text, (position / 10) as u64);
    let ghost whole = text@;
    proof {
        reveal_strlit(".");
        reveal_strlit("%");
    }
    text.append(".");
    text.append(digit_text((position % 10) as u64));
    text.append("%");
    assert(whole =~= decimal((position / 10) as nat));
    assert(text@ =~= whole + seq!['.', digit((position % 10) as int), '%']);
    text
}

} // verus!
