//! Fixed-point scores, their letter bands and their decimal rendering.
//!
//! A score is an `i64` counted in thousandths of a point: `85_000` stands for
//! 85.0 and `88_500` for 88.5. Valid scores lie between 0 and 100 points.

use vstd::prelude::*;
use crate::decimal::{decimal, digit_char, digit_str, push_decimal};

verus! {

/// How many units make one point.
pub const SCALE: i64 = 1_000;

/// The highest valid score: 100 points.
pub const MAX_SCORE: i64 = 100_000;

/// Lowest average that earns an `A`: 90 points.
pub const A_FLOOR: i64 = 90_000;

/// Lowest average that earns a `B`: 80 points.
pub const B_FLOOR: i64 = 80_000;

/// Lowest average that earns a `C`: 70 points.
pub const C_FLOOR: i64 = 70_000;

/// Lowest average that earns a `D`: 60 points.
pub const D_FLOOR: i64 = 60_000;

/// A score is valid when it lies between 0 and 100 points, both included.
pub open spec fn in_range(score: int) -> bool {
    0 <= score <= MAX_SCORE
}

/// The letter for an average. The bands are tried from the top down and the
/// first one that the average reaches wins; whatever reaches none is an `F`.
pub open spec fn letter_for(average: int) -> char {
    if average >= A_FLOOR {
        'A'
    } else if average >= B_FLOOR {
        'B'
    } else if average >= C_FLOOR {
        'C'
    } else if average >= D_FLOOR {
        'D'
    } else {
        'F'
    }
}

/// Whether `c` is one of the five letters that `letter_for` hands out.
pub open spec fn is_letter(c: char) -> bool {
    c == 'A' || c == 'B' || c == 'C' || c == 'D' || c == 'F'
}

/// The digits after the decimal point for `frac` thousandths, trailing zeros
/// dropped, but never fewer than one digit.
pub open spec fn fraction_digits(frac: int) -> Seq<char> {
    if frac % 100 == 0 {
        seq![digit_char(frac / 100)]
    } else if frac % 10 == 0 {
        seq![digit_char(frac / 100), digit_char(frac / 10 % 10)]
    } else {
        seq![digit_char(frac / 100), digit_char(frac / 10 % 10), digit_char(frac % 10)]
    }
}

/// A value in points with at least one digit after the point:
/// `85.0`, `88.5`, `0.125`.
pub open spec fn score_text(value: nat) -> Seq<char> {
    decimal(value / 1000) + seq!['.'] + fraction_digits((value % 1000) as int)
}

/// A value in points in its shortest form: whole values drop the fraction
/// altogether (`85`), others read as in `score_text` (`88.5`).
pub open spec fn short_text(value: nat) -> Seq<char> {
    if value % 1000 == 0 {
        decimal(value / 1000)
    } else {
        score_text(value)
    }
}

/// Maps an average to its letter.
pub fn letter_grade_for(average: i64) -> (letter: char)
    ensures
        letter == letter_for(average as int),
        is_letter(letter),
{
    if average >= A_FLOOR {
        'A'
    } else if average >= B_FLOOR {
        'B'
    } else if average >= C_FLOOR {
        'C'
    } else if average >= D_FLOOR {
        'D'
    } else {
        'F'
    }
}

/// Appends the fraction digits of `frac` thousandths to `out`.
fn push_fraction(out: &mut String, frac: u64)
    requires
        frac < 1000,
    ensures
        final(out)@ == old(out)@ + fraction_digits(frac as int),
{
    out.append(digit_str((frac / 100) as u8));
    if frac % 100 != 0 {
        out.append(digit_str((frac / 10 % 10) as u8));
        if frac % 10 != 0 {
            out.append(digit_str((frac % 10) as u8));
        }
    }
}

/// Appends `value` to `out`, written as `score_text` says.
pub fn push_score(out: &mut String, value: u64)
    ensures
        final(out)@ == old(out)@ + score_text(value as nat),
{
    proof {
        reveal_strlit(".");
    }
    push_decimal(out, value / 1000);
    out.append(".");
    push_fraction(out, value % 1000);
}

/// Appends `value` to `out`, written as `short_text` says.
pub fn push_short(out: &mut String, value: u64)
    ensures
        final(out)@ == old(out)@ + short_text(value as nat),
{
    if value % 1000 == 0 {
        push_decimal(out, value / 1000);
    } else {
        push_score(out, value);
    }
}

} // verus!
