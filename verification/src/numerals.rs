//! Numeric literal rendering: decimal digit strings for integers, and the
//! float literal formatting policy for the constrained float values.
//!
//! A float literal is rendered from the double's bit pattern. The choice
//! between plain decimal and exponential notation is pure integer logic on
//! the pattern (for finite non-negative doubles the unsigned order of the
//! bit patterns coincides with the numeric order). Only the production of
//! the shortest round-trippable digit string itself is delegated, through a
//! hexadecimal float literal built and verified here, to the platform's
//! float formatting.

use vstd::prelude::*;
use vstd::string::StrSliceExecFns;
use vstd::string::StringExecFns;
use crate::ast::utils::is_positive_finite_bits;

verus! {

/// Mask of the 52 stored mantissa bits of a double's bit pattern.
pub const F64_MANTISSA_MASK: u64 = 0x000F_FFFF_FFFF_FFFF;

/// The implicit leading significand bit of a normal double.
pub const F64_HIDDEN_BIT: u64 = 0x0010_0000_0000_0000;

/// Bit pattern of the double closest to one ten-thousandth (1e-4).
pub const F64_BITS_1E_NEG4: u64 = 0x3F1A_36E2_EB1C_432D;

/// Bit pattern of the double ten quadrillion (1e16, exactly representable).
pub const F64_BITS_1E16: u64 = 0x4341_C379_37E0_8000;

/// The decimal digit character for `d` (meaningful for `d < 10`).
pub open spec fn dec_digit(d: nat) -> char
    recommends
        d < 10,
{
    if d == 0 {
        '0'
    } else if d == 1 {
        '1'
    } else if d == 2 {
        '2'
    } else if d == 3 {
        '3'
    } else if d == 4 {
        '4'
    } else if d == 5 {
        '5'
    } else if d == 6 {
        '6'
    } else if d == 7 {
        '7'
    } else if d == 8 {
        '8'
    } else {
        '9'
    }
}

/// The decimal digit string of `n`: no sign, no leading zeroes (other than
/// the single digit `0` itself).
pub open spec fn dec_chars(n: nat) -> Seq<char>
    decreases n,
{
    if n < 10 {
        seq![dec_digit(n)]
    } else {
        dec_chars(n / 10).push(dec_digit(n % 10))
    }
}

/// The lowercase hexadecimal digit character for `d` (meaningful for `d < 16`).
pub open spec fn hex_digit(d: nat) -> char
    recommends
        d < 16,
{
    if d < 10 {
        dec_digit(d)
    } else if d == 10 {
        'a'
    } else if d == 11 {
        'b'
    } else if d == 12 {
        'c'
    } else if d == 13 {
        'd'
    } else if d == 14 {
        'e'
    } else {
        'f'
    }
}

/// The lowercase hexadecimal digit string of `n`, without leading zeroes.
pub open spec fn hex_chars(n: nat) -> Seq<char>
    decreases n,
{
    if n < 16 {
        seq![hex_digit(n)]
    } else {
        hex_chars(n / 16).push(hex_digit(n % 16))
    }
}

fn dec_digit_str(d: u64) -> (s: &'static str)
    requires
        d < 10,
    ensures
        s@ =~= seq![dec_digit(d as nat)],
{
    proof {
        reveal_strlit("0");
        reveal_strlit("1");
        reveal_strlit("2");
        reveal_strlit("3");
        reveal_strlit("4");
        reveal_strlit("5");
        reveal_strlit("6");
        reveal_strlit("7");
        reveal_strlit("8");
        reveal_strlit("9");
    }
    match d {
        0 => "0",
        1 => "1",
        2 => "2",
        3 => "3",
        4 => "4",
        5 => "5",
        6 => "6",
        7 => "7",
        8 => "8",
        _ => "9",
    }
}

fn hex_digit_str(d: u64) -> (s: &'static str)
    requires
        d < 16,
    ensures
        s@ =~= seq![hex_digit(d as nat)],
{
    proof {
        reveal_strlit("a");
        reveal_strlit("b");
        reveal_strlit("c");
        reveal_strlit("d");
        reveal_strlit("e");
        reveal_strlit("f");
    }
    if d < 10 {
        dec_digit_str(d)
    } else {
        match d {
            10 => "a",
            11 => "b",
            12 => "c",
            13 => "d",
            14 => "e",
            _ => "f",
        }
    }
}

/// Renders `n` as its decimal digit string.
pub fn u64_to_decimal(n: u64) -> (s: String)
    ensures
        s@ == dec_chars(n as nat),
    decreases n,
{
    if n < 10 {
        dec_digit_str(n).to_owned()
    } else {
        let mut s = u64_to_decimal(n / 10);
        s.append(dec_digit_str(n % 10));
        proof {
            assert(s@ =~= dec_chars(n as nat));
        }
        s
    }
}

/// Renders `n` as its lowercase hexadecimal digit string.
pub fn u64_to_hex(n: u64) -> (s: String)
    ensures
        s@ == hex_chars(n as nat),
    decreases n,
{
    if n < 16 {
        hex_digit_str(n).to_owned()
    } else {
        let mut s = u64_to_hex(n / 16);
        s.append(hex_digit_str(n % 16));
        proof {
            assert(s@ =~= hex_chars(n as nat));
        }
        s
    }
}

/// The full integer significand of the double with bit pattern `bits`
/// (meaningful for finite non-negative patterns): the 52 stored mantissa
/// bits, with the implicit leading bit added for a normal double.
pub open spec fn significand_of(bits: u64) -> u64 {
    if bits >> 52 == 0 {
        bits & F64_MANTISSA_MASK
    } else {
        (bits & F64_MANTISSA_MASK) | F64_HIDDEN_BIT
    }
}

/// The binary exponent string of the double with bit pattern `bits`, such
/// that the value equals `significand_of(bits)` times two to this exponent.
/// A normal double with biased exponent `b` has exponent `b - 1075`; a
/// subnormal one (biased exponent zero) has exponent `-1074`.
pub open spec fn binary_exponent_chars(bits: u64) -> Seq<char> {
    let biased = bits >> 52;
    if biased == 0 {
        seq!['-'] + dec_chars(1074)
    } else if biased < 1075 {
        seq!['-'] + dec_chars((1075 - biased) as nat)
    } else {
        dec_chars((biased - 1075) as nat)
    }
}

/// The hexadecimal float literal denoting exactly the double with bit
/// pattern `bits` (meaningful for finite non-negative patterns):
/// `0x`, the significand in hexadecimal, `p`, the binary exponent in decimal.
pub open spec fn hex_float_chars(bits: u64) -> Seq<char> {
    "0x"@ + hex_chars(significand_of(bits) as nat) + "p"@ + binary_exponent_chars(bits)
}

/// Builds the hexadecimal float literal denoting the double with bit
/// pattern `bits`.
pub fn hex_float_repr(bits: u64) -> (s: String)
    ensures
        s@ == hex_float_chars(bits),
{
    let biased = bits >> 52;
    let sig = if biased == 0 {
        bits & F64_MANTISSA_MASK
    } else {
        (bits & F64_MANTISSA_MASK) | F64_HIDDEN_BIT
    };
    let mut s = "0x".to_owned();
    s.append(u64_to_hex(sig).as_str());
    s.append("p");
    if biased < 1075 {
        s.append("-");
        let mag: u64 = if biased == 0 {
            1074
        } else {
            1075 - biased
        };
        s.append(u64_to_decimal(mag).as_str());
        proof {
            reveal_strlit("-");
            assert(s@ =~= hex_float_chars(bits));
        }
    } else {
        s.append(u64_to_decimal(biased - 1075).as_str());
        proof {
            assert(s@ =~= hex_float_chars(bits));
        }
    }
    s
}

/// The shortest decimal string in positional notation that parses back to
/// the double with bit pattern `bits`; what std's `Display` prints for it.
pub uninterp spec fn plain_decimal_chars(bits: u64) -> Seq<char>;

/// The shortest decimal string in `<mantissa>e<exponent>` notation that
/// parses back to the double with bit pattern `bits` (no plus sign on a
/// positive exponent); what std's `LowerExp` prints for it.
pub uninterp spec fn exponential_chars(bits: u64) -> Seq<char>;

/// Relies on `hexf_parse::parse_hexf64`, which returns exactly the double a
/// hexadecimal float literal denotes (or rejects it, which the precondition
/// rules out), and on std's `Display` for doubles, which prints the shortest
/// decimal string in positional notation that parses back to the same
/// double. The literal handed in denotes the double with bit pattern `bits`
/// exactly, so the result is a function of `bits` alone.
#[verifier::external_body]
fn plain_decimal_repr(bits: u64, hex: &str) -> (s: String)
    requires
        is_positive_finite_bits(bits),
        hex@ == hex_float_chars(bits),
    ensures
        s@ == plain_decimal_chars(bits),
{
    format!("{}", hexf_parse::parse_hexf64(hex, false).unwrap_or_default())
}

/// Relies on `hexf_parse::parse_hexf64` as above, and on std's `LowerExp`
/// for doubles, which prints the shortest mantissa-`e`-exponent decimal
/// string that parses back to the same double, with no plus sign on a
/// positive exponent. The literal handed in denotes the double with bit
/// pattern `bits` exactly, so the result is a function of `bits` alone.
#[verifier::external_body]
fn exponential_repr(bits: u64, hex: &str) -> (s: String)
    requires
        is_positive_finite_bits(bits),
        hex@ == hex_float_chars(bits),
    ensures
        s@ == exponential_chars(bits),
{
    format!("{:e}", hexf_parse::parse_hexf64(hex, false).unwrap_or_default())
}

/// `c` is an ASCII decimal digit.
pub open spec fn is_dec_digit(c: char) -> bool {
    48 <= c as u32 && c as u32 <= 57
}

/// Every character of `s` is an ASCII decimal digit.
pub open spec fn all_dec_digits(s: Seq<char>) -> bool {
    forall|i: int| 0 <= i < s.len() ==> is_dec_digit(#[trigger] s[i])
}

fn str_all_dec_digits(s: &str) -> (b: bool)
    ensures
        b == all_dec_digits(s@),
{
    let n = s.unicode_len();
    let mut i: usize = 0;
    while i < n
        invariant
            i <= n,
            n == s@.len(),
            forall|j: int| 0 <= j < i ==> is_dec_digit(#[trigger] s@[j]),
        decreases n - i,
    {
        let c = s.get_char(i);
        let u = c as u32;
        if u < 48 || u > 57 {
            return false;
        }
        i += 1;
    }
    true
}

/// Whether the double with bit pattern `bits` is rendered in exponential
/// notation: zero is always plain, and otherwise exponential notation is
/// used exactly outside the half-open range [1e-4, 1e16). For finite
/// non-negative doubles the numeric order coincides with the unsigned order
/// of the bit patterns, so the range check is an integer comparison.
pub open spec fn spec_use_exponent(bits: u64) -> bool {
    bits != 0 && (bits < F64_BITS_1E_NEG4 || bits >= F64_BITS_1E16)
}

/// Decides between exponential and plain decimal notation for the double
/// with bit pattern `bits`.
pub fn should_format_float_with_exponent(bits: u64) -> (b: bool)
    ensures
        b == spec_use_exponent(bits),
{
    bits != 0 && (bits < F64_BITS_1E_NEG4 || bits >= F64_BITS_1E16)
}

/// The rendered literal of the double with bit pattern `bits`: the notation
/// chosen by [`spec_use_exponent`], with `.0` appended when the text would
/// otherwise consist solely of digits and so be indistinguishable from an
/// integer literal.
pub open spec fn float_chars(bits: u64) -> Seq<char> {
    let base = if spec_use_exponent(bits) {
        exponential_chars(bits)
    } else {
        plain_decimal_chars(bits)
    };
    if all_dec_digits(base) {
        base + ".0"@
    } else {
        base
    }
}

/// The decimal digit string of `n` is well formed: non-empty, made of
/// decimal digit characters only, with no sign and no leading zero (other
/// than the single digit `0` itself).
pub proof fn lemma_dec_chars_wellformed(n: nat)
    ensures
        dec_chars(n).len() >= 1,
        all_dec_digits(dec_chars(n)),
        n >= 1 ==> dec_chars(n)[0] != '0',
    decreases n,
{
    if n < 10 {
        assert(is_dec_digit(dec_digit(n)));
    } else {
        lemma_dec_chars_wellformed(n / 10);
        assert(is_dec_digit(dec_digit(n % 10)));
        assert(dec_chars(n)[0] == dec_chars(n / 10)[0]);
        assert forall|i: int| 0 <= i < dec_chars(n).len() implies is_dec_digit(
            #[trigger] dec_chars(n)[i],
        ) by {
            if i < dec_chars(n / 10).len() {
                assert(dec_chars(n)[i] == dec_chars(n / 10)[i]);
            }
        }
    }
}

/// A rendered float literal is always distinguishable from an integer
/// literal: it never consists solely of decimal digits, since a `.0` suffix
/// is appended exactly when the chosen notation would produce bare digits.
pub proof fn lemma_float_literal_marked(bits: u64)
    ensures
        !all_dec_digits(float_chars(bits)),
{
    reveal_strlit(".0");
    let base = if spec_use_exponent(bits) {
        exponential_chars(bits)
    } else {
        plain_decimal_chars(bits)
    };
    if all_dec_digits(base) {
        let out = base + ".0"@;
        assert(out[base.len() as int] == '.');
        assert(!is_dec_digit('.'));
    }
}

/// Renders the double with bit pattern `bits` as a float literal.
pub fn format_float(bits: u64) -> (s: String)
    requires
        is_positive_finite_bits(bits),
    ensures
        s@ == float_chars(bits),
{
    let hex = hex_float_repr(bits);
    let base = if should_format_float_with_exponent(bits) {
        exponential_repr(bits, hex.as_str())
    } else {
        plain_decimal_repr(bits, hex.as_str())
    };
    if str_all_dec_digits(base.as_str()) {
        let mut s = base;
        s.append(".0");
        s
    } else {
        base
    }
}

} // verus!
