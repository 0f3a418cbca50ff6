use vstd::prelude::*;
use crate::text::chars_of;

verus! {

/// The largest byte count a size can denote.
pub const MAX_BYTES: u64 = 0xffff_ffff_ffff_ffff;

pub const KIB: u64 = 1024;

pub const MIB: u64 = 1_048_576;

pub const GIB: u64 = 1_073_741_824;

pub const TIB: u64 = 1_099_511_627_776;

/// Why a size token was rejected.
#[derive(Clone, Copy, Debug, PartialEq, Eq, Structural)]
pub enum SizeError {
    /// The token has no characters.
    Empty,
    /// The token ends in a character that is neither a digit nor one of
    /// the unit letters.
    UnknownSuffix,
    /// The token is a unit letter with nothing in front of it.
    MissingMagnitude,
    /// A character in front of the unit letter is not a digit.
    InvalidMagnitude,
    /// The magnitude times the unit does not fit in 64 bits.
    Overflow,
}

pub open spec fn is_digit(c: char) -> bool {
    '0' <= c <= '9'
}

pub open spec fn digit_value(c: char) -> nat {
    (c as u32 - '0' as u32) as nat
}

pub open spec fn all_digits(s: Seq<char>) -> bool {
    forall|i: int| 0 <= i < s.len() ==> is_digit(#[trigger] s[i])
}

/// The number that a string of digits writes in base ten; the empty
/// string writes zero.
pub open spec fn decimal_value(s: Seq<char>) -> nat
    decreases s.len(),
{
    if s.len() == 0 {
        0
    } else {
        decimal_value(s.drop_last()) * 10 + digit_value(s.last())
    }
}

/// The factor that a unit letter stands for, in either case.
pub open spec fn unit_factor(c: char) -> Option<nat> {
    if c == 'K' || c == 'k' {
        Some(KIB as nat)
    } else if c == 'M' || c == 'm' {
        Some(MIB as nat)
    } else if c == 'G' || c == 'g' {
        Some(GIB as nat)
    } else if c == 'T' || c == 't' {
        Some(TIB as nat)
    } else {
        None
    }
}

/// The part of a non-empty token that writes the magnitude: all of it when
/// it ends in a digit, all but the last character otherwise.
pub open spec fn magnitude_digits(token: Seq<char>) -> Seq<char> {
    if is_digit(token.last()) {
        token
    } else {
        token.drop_last()
    }
}

/// The factor by which a non-empty token multiplies its magnitude: one
/// when it ends in a digit, else the factor of its unit letter.
pub open spec fn token_factor(token: Seq<char>) -> nat {
    if is_digit(token.last()) {
        1
    } else {
        match unit_factor(token.last()) {
            Some(f) => f,
            None => 0,
        }
    }
}

/// What is wrong with the shape of a token, if anything.
pub open spec fn token_fault(token: Seq<char>) -> Option<SizeError> {
    if token.len() == 0 {
        Some(SizeError::Empty)
    } else if !is_digit(token.last()) && unit_factor(token.last()) is None {
        Some(SizeError::UnknownSuffix)
    } else if magnitude_digits(token).len() == 0 {
        Some(SizeError::MissingMagnitude)
    } else if !all_digits(magnitude_digits(token)) {
        Some(SizeError::InvalidMagnitude)
    } else {
        None
    }
}

/// The byte count that a well-shaped token denotes, as a mathematical
/// integer.
pub open spec fn token_bytes(token: Seq<char>) -> nat {
    decimal_value(magnitude_digits(token)) * token_factor(token)
}

/// The meaning of a size token: its byte count, or the reason why it has
/// none.
pub open spec fn size_of_token(token: Seq<char>) -> Result<u64, SizeError> {
    match token_fault(token) {
        Some(e) => Err(e),
        None => if token_bytes(token) <= MAX_BYTES {
            Ok(token_bytes(token) as u64)
        } else {
            Err(SizeError::Overflow)
        },
    }
}

/// A string of digits writes at least what any of its prefixes writes.
pub proof fn lemma_prefix_value(s: Seq<char>, k: int)
    requires
        0 <= k <= s.len(),
    ensures
        decimal_value(s.take(k)) <= decimal_value(s),
    decreases s.len() - k,
{
    if k == s.len() {
        assert(s.take(k) =~= s);
    } else {
        lemma_prefix_value(s, k + 1);
        assert(s.take(k + 1).drop_last() =~= s.take(k));
    }
}

/// The token made of a string of digits and, if there is one, a unit
/// letter behind it.
pub open spec fn token_of(digits: Seq<char>, unit: Option<char>) -> Seq<char> {
    match unit {
        Some(c) => digits.push(c),
        None => digits,
    }
}

/// The factor of an optional unit letter: one where there is none.
pub open spec fn factor_of_unit(unit: Option<char>) -> nat {
    match unit {
        Some(c) => unit_factor(c)->0,
        None => 1,
    }
}

/// A token made of a non-empty string of digits, alone or followed by one
/// of the unit letters, denotes exactly the number that the digits write
/// times the factor of the unit, whenever that product fits in 64 bits.
pub proof fn law_token_denotes_product(digits: Seq<char>, unit: Option<char>)
    requires
        digits.len() > 0,
        all_digits(digits),
        unit matches Some(c) ==> unit_factor(c) is Some,
        decimal_value(digits) * factor_of_unit(unit) <= MAX_BYTES,
    ensures
        size_of_token(token_of(digits, unit)) == Ok::<u64, SizeError>(
            (decimal_value(digits) * factor_of_unit(unit)) as u64,
        ),
{
    lemma_token_parts(digits, unit);
}

/// Where the number that the digits write, times the factor of the unit,
/// exceeds 64 bits, the token is rejected as an overflow, and as nothing
/// else.
pub proof fn law_overflow_is_reported(digits: Seq<char>, unit: Option<char>)
    requires
        digits.len() > 0,
        all_digits(digits),
        unit matches Some(c) ==> unit_factor(c) is Some,
        decimal_value(digits) * factor_of_unit(unit) > MAX_BYTES,
    ensures
        size_of_token(token_of(digits, unit)) == Err::<u64, SizeError>(SizeError::Overflow),
{
    lemma_token_parts(digits, unit);
}

/// A token is rejected as an overflow exactly when its shape is right and
/// its byte count exceeds 64 bits: no fault of shape is reported so.
pub proof fn law_overflow_is_distinct(token: Seq<char>)
    ensures
        size_of_token(token) == Err::<u64, SizeError>(SizeError::Overflow) <==> token_fault(token)
            is None && token_bytes(token) > MAX_BYTES,
{
}

proof fn lemma_token_parts(digits: Seq<char>, unit: Option<char>)
    requires
        digits.len() > 0,
        all_digits(digits),
        unit matches Some(c) ==> unit_factor(c) is Some,
    ensures
        token_fault(token_of(digits, unit)) is None,
        magnitude_digits(token_of(digits, unit)) == digits,
        token_factor(token_of(digits, unit)) == factor_of_unit(unit),
{
}

fn is_digit_char(c: char) -> (b: bool)
    ensures
        b == is_digit(c),
{
    '0' <= c && c <= '9'
}

fn digit_of(c: char) -> (d: u64)
    requires
        is_digit(c),
    ensures
        d == digit_value(c),
        d <= 9,
{
    (c as u32 - '0' as u32) as u64
}

fn factor_of(c: char) -> (f: Option<u64>)
    ensures
        match f {
            Some(x) => unit_factor(c) == Some(x as nat),
            None => unit_factor(c) is None,
        },
{
    if c == 'K' || c == 'k' {
        Some(KIB)
    } else if c == 'M' || c == 'm' {
        Some(MIB)
    } else if c == 'G' || c == 'g' {
        Some(GIB)
    } else if c == 'T' || c == 't' {
        Some(TIB)
    } else {
        None
    }
}

/// Whether the first `end` characters are all digits.
pub(crate) fn digits_only(chars: &Vec<char>, end: usize) -> (b: bool)
    requires
        end <= chars.len(),
    ensures
        b == all_digits(chars@.take(end as int)),
{
    let mut i: usize = 0;
    while i < end
        invariant
            i <= end <= chars.len(),
            all_digits(chars@.take(i as int)),
        decreases end - i,
    {
        if !is_digit_char(chars[i]) {
            assert(chars@.take(end as int)[i as int] == chars@[i as int]);
            return false;
        }
        assert forall|j: int| 0 <= j < i + 1 implies is_digit(
            #[trigger] chars@.take(i + 1)[j],
        ) by {}
        i += 1;
    }
    true
}

/// The value that the first `end` characters write in base ten, or `None`
/// when it does not fit in 64 bits.
pub(crate) fn digits_value(chars: &Vec<char>, end: usize) -> (v: Option<u64>)
    requires
        end <= chars.len(),
        all_digits(chars@.take(end as int)),
    ensures
        match v {
            Some(x) => x == decimal_value(chars@.take(end as int)),
            None => decimal_value(chars@.take(end as int)) > MAX_BYTES,
        },
{
    let ghost digits = chars@.take(end as int);
    let mut acc: u64 = 0;
    let mut i: usize = 0;
    while i < end
        invariant
            i <= end <= chars.len(),
            digits == chars@.take(end as int),
            all_digits(digits),
            acc == decimal_value(digits.take(i as int)),
        decreases end - i,
    {
        let c = chars[i];
        assert(digits[i as int] == c);
        let d = digit_of(c);
        proof {
            assert(digits.take(i + 1).drop_last() =~= digits.take(i as int));
            lemma_prefix_value(digits, i + 1);
        }
        if acc > (MAX_BYTES - d) / 10 {
            return None;
        }
        acc = acc * 10 + d;
        i += 1;
    }
    assert(digits.take(end as int) =~= digits);
    Some(acc)
}

/// Reads a size such as `512M`, `5g` or `1024`: a string of digits,
/// followed or not by one of the unit letters K, M, G, T in either case,
/// which stand for the first four powers of 1024.
pub fn parse_human_size(s: &str) -> (r: Result<u64, SizeError>)
    ensures
        r == size_of_token(s@),
{
    let chars = chars_of(s);
    let n = chars.len();
    if n == 0 {
        return Err(SizeError::Empty);
    }
    let last = chars[n - 1];
    let mut end: usize = n;
    let mut factor: u64 = 1;
    if !is_digit_char(last) {
        match factor_of(last) {
            Some(f) => {
                end = n - 1;
                factor = f;
            },
            None => {
                return Err(SizeError::UnknownSuffix);
            },
        }
    }
    assert(chars@.take(end as int) =~= magnitude_digits(s@));
    if end == 0 {
        return Err(SizeError::MissingMagnitude);
    }
    if !digits_only(&chars, end) {
        return Err(SizeError::InvalidMagnitude);
    }
    match digits_value(&chars, end) {
        None => {
            assert(token_bytes(s@) > MAX_BYTES) by (nonlinear_arith)
                requires
                    token_bytes(s@) == decimal_value(magnitude_digits(s@)) * token_factor(s@),
                    decimal_value(magnitude_digits(s@)) > MAX_BYTES,
                    token_factor(s@) >= 1,
            ;
            Err(SizeError::Overflow)
        },
        Some(m) => match m.checked_mul(factor) {
            Some(bytes) => Ok(bytes),
            None => Err(SizeError::Overflow),
        },
    }
}

} // verus!
