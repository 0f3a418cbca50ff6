use vstd::prelude::*;
use crate::size::{all_digits, decimal_value, is_digit, size_of_token, SizeError, MAX_BYTES};
use crate::text::push_char;

verus! {

/// The character that writes a digit below ten.
pub open spec fn digit_char(d: nat) -> char {
    (d + 48) as char
}

/// A number written in base ten, without leading zeros.
pub open spec fn decimal_digits(n: nat) -> Seq<char>
    decreases n,
{
    if n < 10 {
        seq![digit_char(n)]
    } else {
        decimal_digits(n / 10).push(digit_char(n % 10))
    }
}

/// The unit in which a byte count is shown: the smallest of bytes and the
/// first four powers of 1024 in which the count is below 1024, and the
/// largest of them where there is none.
pub open spec fn unit_index(n: nat) -> nat {
    if n < 1024 {
        0
    } else if n < 1_048_576 {
        1
    } else if n < 1_073_741_824 {
        2
    } else if n < 1_099_511_627_776 {
        3
    } else {
        4
    }
}

/// How many bytes make one of a unit.
pub open spec fn unit_bytes(index: nat) -> nat {
    if index == 0 {
        1
    } else if index == 1 {
        1024
    } else if index == 2 {
        1_048_576
    } else if index == 3 {
        1_073_741_824
    } else {
        1_099_511_627_776
    }
}

/// The name of a unit.
pub open spec fn unit_label(index: nat) -> Seq<char> {
    if index == 0 {
        seq!['B']
    } else if index == 1 {
        seq!['K', 'i', 'B']
    } else if index == 2 {
        seq!['M', 'i', 'B']
    } else if index == 3 {
        seq!['G', 'i', 'B']
    } else {
        seq!['T', 'i', 'B']
    }
}

/// The quotient `num / den` rounded to the nearest integer, a tie going to
/// the even neighbour.
pub open spec fn round_half_even(num: nat, den: nat) -> nat {
    let q = num / den;
    let r = num % den;
    if 2 * r > den || (2 * r == den && q % 2 == 1) {
        q + 1
    } else {
        q
    }
}

/// A byte count in hundredths of its unit, rounded.
pub open spec fn scaled_hundredths(n: nat) -> nat {
    round_half_even(n * 100, unit_bytes(unit_index(n)))
}

/// How a byte count reads: below 1024 the count itself and `B`; from
/// there on the count in its unit with two decimals, and the unit's name.
pub open spec fn human_readable(n: nat) -> Seq<char> {
    if n < 1024 {
        decimal_digits(n) + seq![' ', 'B']
    } else {
        let h = scaled_hundredths(n);
        decimal_digits(h / 100) + seq!['.', digit_char(h / 10 % 10), digit_char(h % 10), ' ']
            + unit_label(unit_index(n))
    }
}

/// The unit of a count is the first in which the count is below 1024, and
/// the largest where there is none: in every smaller unit the count is
/// 1024 or more.
pub proof fn law_unit_is_the_first_that_fits(n: nat)
    ensures
        unit_index(n) <= 4,
        unit_index(n) < 4 ==> n < 1024 * unit_bytes(unit_index(n)),
        forall|index: nat| index < unit_index(n) ==> n >= 1024 * #[trigger] unit_bytes(index),
{
}

/// The hundredths shown are the nearest to the count: they miss it by
/// half a hundredth of the unit at most, and where two are equally near,
/// the even one is shown.
pub proof fn law_hundredths_are_nearest(n: nat)
    ensures
        ({
            let unit = unit_bytes(unit_index(n)) as int;
            let shown = scaled_hundredths(n) as int;
            &&& -unit <= 2 * (shown * unit - 100 * n) <= unit
            &&& (2 * (shown * unit - 100 * n) == unit || 2 * (shown * unit - 100 * n) == -unit)
                ==> shown % 2 == 0
        }),
{
    let unit = unit_bytes(unit_index(n)) as int;
    let num = (n * 100) as int;
    let q = num / unit;
    let r = num % unit;
    assert(num == q * unit + r && 0 <= r < unit) by (nonlinear_arith)
        requires
            unit > 0,
            q == num / unit,
            r == num % unit,
    ;
}

/// What is written for a number is made of digits, and reads back as the
/// number: a count below 1024, as it is shown, is a size token for
/// itself.
pub proof fn law_decimal_round_trip(n: nat)
    ensures
        decimal_digits(n).len() > 0,
        all_digits(decimal_digits(n)),
        decimal_value(decimal_digits(n)) == n,
        n <= MAX_BYTES ==> size_of_token(decimal_digits(n)) == Ok::<u64, SizeError>(n as u64),
    decreases n,
{
    let digits = decimal_digits(n);
    if n < 10 {
        assert(decimal_value(digits.drop_last()) == 0);
    } else {
        law_decimal_round_trip(n / 10);
        let front = decimal_digits(n / 10);
        assert(digits.drop_last() =~= front);
        assert forall|i: int| 0 <= i < digits.len() implies is_digit(#[trigger] digits[i]) by {}
    }
}

fn digit_to_char(d: u64) -> (c: char)
    requires
        d < 10,
    ensures
        c == digit_char(d as nat),
{
    (d as u8 + 48u8) as char
}

/// Appends `n`, written in base ten, to `out`.
pub(crate) fn push_decimal(out: &mut String, n: u64)
    ensures
        final(out)@ == old(out)@ + decimal_digits(n as nat),
    decreases n,
{
    if n >= 10 {
        push_decimal(out, n / 10);
    }
    push_char(out, digit_to_char(n % 10));
}

fn push_label(out: &mut String, index: u8)
    requires
        index <= 4,
    ensures
        final(out)@ == old(out)@ + unit_label(index as nat),
{
    if index == 1 {
        push_char(out, 'K');
        push_char(out, 'i');
    } else if index == 2 {
        push_char(out, 'M');
        push_char(out, 'i');
    } else if index == 3 {
        push_char(out, 'G');
        push_char(out, 'i');
    } else if index == 4 {
        push_char(out, 'T');
        push_char(out, 'i');
    }
    push_char(out, 'B');
}

/// Writes a byte count for a reader: `0 B`, `1023 B`, `1.00 KiB`,
/// `1.50 KiB`. The unit is chosen on the exact count; the rounding to two
/// decimals comes after it, so a count just below a unit's end reads as
/// `1024.00` of the unit it is in.
pub fn human_readable_bytes(n: u64) -> (s: String)
    ensures
        s@ == human_readable(n as nat),
{
    let mut out = String::new();
    if n < 1024 {
        push_decimal(&mut out, n);
        push_char(&mut out, ' ');
        push_char(&mut out, 'B');
        return out;
    }
    let mut index: u8 = 4;
    let mut unit: u128 = 1_099_511_627_776;
    if n < 1_048_576 {
        index = 1;
        unit = 1024;
    } else if n < 1_073_741_824 {
        index = 2;
        unit = 1_048_576;
    } else if n < 1_099_511_627_776 {
        index = 3;
        unit = 1_073_741_824;
    }
    let num: u128 = (n as u128) * 100;
    let q: u128 = num / unit;
    let r: u128 = num % unit;
    let h: u64 = if 2 * r > unit || (2 * r == unit && q % 2 == 1) {
        (q + 1) as u64
    } else {
        q as u64
    };
    push_decimal(&mut out, h / 100);
    push_char(&mut out, '.');
    push_char(&mut out, digit_to_char(h / 10 % 10));
    push_char(&mut out, digit_to_char(h % 10));
    push_char(&mut out, ' ');
    push_label(&mut out, index);
    out
}

} // verus!
