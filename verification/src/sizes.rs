//! Sizes written with a unit, such as "1.5 MB", as a number of bytes.

use vstd::prelude::*;
use vstd::string::*;
use crate::text::{
    all_digits, chars_of, digit_value, digits_value, first_index, index_of, alphabetic, is_digit,
    parse_unsigned, same_chars, slice_of, trim, trimmed, upper, uppercase,
};

verus! {

/// The characters that belong to the number of a size.
pub open spec fn is_number_char(c: char) -> bool {
    is_digit(c) || c == '.' || c == ','
}

/// The number in a size: its digits and decimal marks, in order, each
/// comma taken as a point.
pub open spec fn number_part(s: Seq<char>) -> Seq<char>
    decreases s.len(),
{
    if s.len() == 0 {
        s
    } else {
        let init = number_part(s.drop_last());
        if is_digit(s.last()) {
            init.push(s.last())
        } else if s.last() == '.' || s.last() == ',' {
            init.push('.')
        } else {
            init
        }
    }
}

/// The unit in a size: its alphabetic characters, in order.
pub open spec fn unit_part(s: Seq<char>) -> Seq<char>
    decreases s.len(),
{
    if s.len() == 0 {
        s
    } else {
        let init = unit_part(s.drop_last());
        if !is_number_char(s.last()) && alphabetic(s.last()) {
            init.push(s.last())
        } else {
            init
        }
    }
}

/// The digits before the first point of a number.
pub open spec fn whole_digits(n: Seq<char>) -> Seq<char> {
    n.subrange(0, first_index(n, '.'))
}

/// What follows the first point of a number.
pub open spec fn fraction_digits(n: Seq<char>) -> Seq<char> {
    if first_index(n, '.') < n.len() {
        n.subrange(first_index(n, '.') + 1, n.len() as int)
    } else {
        Seq::empty()
    }
}

/// Whether a number is written with digits and at most one point, and has
/// at least one digit.
pub open spec fn is_plain_number(n: Seq<char>) -> bool {
    &&& all_digits(whole_digits(n))
    &&& all_digits(fraction_digits(n))
    &&& whole_digits(n).len() + fraction_digits(n).len() > 0
}

/// The whole part of `m` times the fraction that `digits` are the decimal
/// places of.
pub open spec fn scaled_fraction(digits: Seq<char>, m: nat) -> nat
    decreases digits.len(),
{
    if digits.len() == 0 {
        0
    } else {
        (digit_value(digits[0]) * m + scaled_fraction(digits.drop_first(), m)) / 10
    }
}

pub const KB: &'static str = "KB";

pub const MB: &'static str = "MB";

pub const GB: &'static str = "GB";

pub const TB: &'static str = "TB";

pub const NOT_A_SIZE: &'static str = "N/A";

/// The number of bytes that one of a unit holds; an unknown unit counts as
/// bytes.
pub open spec fn unit_bytes(unit: Seq<char>) -> nat {
    if unit == KB@ {
        1024
    } else if unit == MB@ {
        1024 * 1024
    } else if unit == GB@ {
        1024 * 1024 * 1024
    } else if unit == TB@ {
        1024 * 1024 * 1024 * 1024
    } else {
        1
    }
}

/// The number of whole bytes in a number of units: the number times the
/// bytes of the unit, fractions of a byte dropped. A number that cannot be
/// read stands for nothing.
pub open spec fn bytes_of(number: Seq<char>, unit: Seq<char>) -> nat {
    if !is_plain_number(number) {
        0
    } else {
        digits_value(whole_digits(number)) * unit_bytes(unit) + scaled_fraction(
            fraction_digits(number),
            unit_bytes(unit),
        )
    }
}

/// The number of whole bytes that a size stands for. The text is trimmed
/// and taken in upper case; its digits and decimal marks make up the
/// number, its letters the unit. An empty text and the sentinel stand for
/// nothing.
pub open spec fn size_in_bytes(text: Seq<char>) -> nat {
    let s = uppercase(trimmed(text));
    if s.len() == 0 || s == NOT_A_SIZE@ {
        0
    } else {
        bytes_of(number_part(s), unit_part(s))
    }
}

/// The greatest size that is reported.
pub open spec fn capped(bytes: nat) -> u64 {
    if bytes > u64::MAX {
        u64::MAX
    } else {
        bytes as u64
    }
}

fn only_digits(v: &Vec<char>) -> (r: bool)
    ensures
        r == all_digits(v@),
{
    let mut i: usize = 0;
    while i < v.len()
        invariant
            i <= v.len(),
            forall|k: int| 0 <= k < i ==> is_digit(#[trigger] v@[k]),
        decreases v.len() - i,
    {
        if !(v[i] >= '0' && v[i] <= '9') {
            assert(!is_digit(v@[i as int]));
            return false;
        }
        i += 1;
    }
    true
}

proof fn lemma_scaled_fraction_bound(digits: Seq<char>, m: nat)
    requires
        all_digits(digits),
    ensures
        scaled_fraction(digits, m) <= m,
    decreases digits.len(),
{
    if digits.len() > 0 {
        let rest = digits.drop_first();
        assert forall|k: int| 0 <= k < rest.len() implies is_digit(#[trigger] rest[k]) by {
            assert(rest[k] == digits[k + 1]);
        }
        lemma_scaled_fraction_bound(rest, m);
        assert(is_digit(digits[0]));
        assert(digit_value(digits[0]) <= 9);
        assert(digit_value(digits[0]) * m <= 9 * m) by (nonlinear_arith)
            requires
                digit_value(digits[0]) <= 9,
        ;
    }
}

fn scale_fraction(digits: &Vec<char>, m: u64) -> (r: u64)
    requires
        all_digits(digits@),
        m <= 0x100_0000_0000,
    ensures
        r == scaled_fraction(digits@, m as nat),
        r <= m,
{
    let mut t: u64 = 0;
    let mut i: usize = digits.len();
    assert(digits@.subrange(digits.len() as int, digits.len() as int).len() == 0);
    while i > 0
        invariant
            i <= digits.len(),
            all_digits(digits@),
            m <= 0x100_0000_0000,
            t == scaled_fraction(digits@.subrange(i as int, digits.len() as int), m as nat),
            t <= m,
        decreases i,
    {
        i -= 1;
        let c = digits[i];
        let ghost rest = digits@.subrange(i as int, digits.len() as int);
        proof {
            assert(rest[0] == c);
            assert(rest.drop_first() == digits@.subrange(i + 1, digits.len() as int));
            assert(is_digit(digits@[i as int]));
            assert forall|k: int| 0 <= k < rest.len() implies is_digit(#[trigger] rest[k]) by {
                assert(rest[k] == digits@[k + i]);
            }
            lemma_scaled_fraction_bound(rest, m as nat);
        }
        let d: u64 = (c as u32 - 0x30) as u64;
        assert(d * m <= 9 * 0x100_0000_0000) by (nonlinear_arith)
            requires
                d <= 9,
                m <= 0x100_0000_0000,
        ;
        t = (d * m + t) / 10;
    }
    assert(digits@.subrange(0, digits.len() as int) == digits@);
    t
}

/// The number of whole bytes in a number of units, at most the greatest
/// number of 64 bits.
pub fn size_from_parts(number: &Vec<char>, unit: &Vec<char>) -> (r: u64)
    ensures
        r == capped(bytes_of(number@, unit@)),
{
    let m: u64 = if same_chars(unit, &chars_of(KB)) {
        1024
    } else if same_chars(unit, &chars_of(MB)) {
        1024 * 1024
    } else if same_chars(unit, &chars_of(GB)) {
        1024 * 1024 * 1024
    } else if same_chars(unit, &chars_of(TB)) {
        1024 * 1024 * 1024 * 1024
    } else {
        1
    };
    let point = index_of(number, '.');
    let whole = slice_of(number, 0, point);
    let fraction = if point < number.len() {
        slice_of(number, point + 1, number.len())
    } else {
        Vec::new()
    };
    assert(fraction@ =~= fraction_digits(number@));
    if !only_digits(&whole) || !only_digits(&fraction) || whole.len() + fraction.len() == 0 {
        return 0;
    }
    let part = scale_fraction(&fraction, m);
    if whole.len() == 0 {
        assert(digits_value(whole@) == 0);
        assert(0 * (m as nat) == 0);
        return part;
    }
    proof {
        if whole@[0] == '+' {
            assert(is_digit(whole@[0]));
        }
    }
    match parse_unsigned(&whole, 0xFFFF_FFFF_FFFF_FFFF) {
        None => {
            assert(digits_value(whole@) * (m as nat) >= digits_value(whole@)) by (nonlinear_arith)
                requires
                    m >= 1,
            ;
            0xFFFF_FFFF_FFFF_FFFF
        },
        Some(value) => {
            assert(value * m <= 0xFFFF_FFFF_FFFF_FFFF * 0x100_0000_0000) by (nonlinear_arith)
                requires
                    value <= 0xFFFF_FFFF_FFFF_FFFF,
                    m <= 0x100_0000_0000,
            ;
            let total: u128 = (value as u128) * (m as u128) + (part as u128);
            if total > 0xFFFF_FFFF_FFFF_FFFF {
                0xFFFF_FFFF_FFFF_FFFF
            } else {
                total as u64
            }
        },
    }
}

/// The number of whole bytes that a size such as "1.5 MB" stands for, at
/// most the greatest number of 64 bits.
pub fn parse_size_string(size_str: &str) -> (r: u64)
    ensures
        r == capped(size_in_bytes(size_str@)),
{
    let s = upper(&trim(&chars_of(size_str)));
    if s.len() == 0 || same_chars(&s, &chars_of(NOT_A_SIZE)) {
        return 0;
    }
    let mut number: Vec<char> = Vec::new();
    let mut unit: Vec<char> = Vec::new();
    let mut i: usize = 0;
    while i < s.len()
        invariant
            i <= s.len(),
            number@ == number_part(s@.subrange(0, i as int)),
            unit@ == unit_part(s@.subrange(0, i as int)),
        decreases s.len() - i,
    {
        proof {
            let next = s@.subrange(0, i + 1);
            assert(next.drop_last() == s@.subrange(0, i as int));
            assert(next.last() == s@[i as int]);
        }
        let c = s[i];
        if c >= '0' && c <= '9' {
            number.push(c);
        } else if c == '.' || c == ',' {
            number.push('.');
        } else if c.is_alphabetic() {
            unit.push(c);
        }
        i += 1;
    }
    assert(s@.subrange(0, s.len() as int) == s@);
    size_from_parts(&number, &unit)
}

} // verus!
