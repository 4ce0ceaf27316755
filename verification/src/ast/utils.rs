//! A constrained floating-point value: a 64-bit IEEE-754 double that is
//! finite and has a positive sign bit, held as its raw bit pattern.
//!
//! Holding the bit pattern keeps every property of the value available to
//! reasoning as plain integer arithmetic: for finite doubles with a clear
//! sign bit, the numeric order coincides with the unsigned order of the bit
//! patterns, equality is bit equality, and there is a single zero.

use vstd::prelude::*;

verus! {

/// Mask of the eleven exponent bits of a double's bit pattern.
pub const F64_EXPONENT_MASK: u64 = 0x7FF0_0000_0000_0000;

/// Mask of the sign bit of a double's bit pattern.
pub const F64_SIGN_MASK: u64 = 0x8000_0000_0000_0000;

/// The bit pattern encodes a NaN or an infinity: all exponent bits are set.
pub open spec fn is_non_finite_bits(bits: u64) -> bool {
    bits & F64_EXPONENT_MASK == F64_EXPONENT_MASK
}

/// The bit pattern has its sign bit set. Note that the encoding of negative
/// zero satisfies this even though its magnitude is zero.
pub open spec fn is_sign_negative_bits(bits: u64) -> bool {
    bits & F64_SIGN_MASK == F64_SIGN_MASK
}

/// The bit pattern encodes a finite double with a positive sign bit.
pub open spec fn is_positive_finite_bits(bits: u64) -> bool {
    !is_non_finite_bits(bits) && !is_sign_negative_bits(bits)
}

/// Why a bit pattern was rejected by [`PositiveFiniteF64::from_bits`].
#[derive(Copy, Clone, Debug, Eq, PartialEq, Hash)]
pub enum InvalidFloatError {
    /// The double is finite but its sign bit is set (this includes negative zero).
    Negative,
    /// The double is a NaN or an infinity (of either sign).
    NonFinite,
}

/// A 64-bit double guaranteed finite and non-negative by construction,
/// stored as its IEEE-754 bit pattern.
///
/// No NaN can ever be present, so the derived bitwise equality, ordering and
/// hashing are total and consistent with the numeric order of the wrapped
/// values: for finite doubles with a clear sign bit, larger bit pattern means
/// larger value, and the single canonical positive zero is the only zero.
#[derive(Copy, Clone, Debug, PartialEq, Eq, PartialOrd, Ord, Hash)]
pub struct PositiveFiniteF64 {
    bits: u64,
}

impl PositiveFiniteF64 {
    /// The wrapped bit pattern, for specifications.
    pub closed spec fn spec_bits(self) -> u64 {
        self.bits
    }

    /// Holds of every value of this type: the wrapped pattern encodes a
    /// finite double with a positive sign bit. Enforced at construction;
    /// recover it for a given value with `use_type_invariant`.
    #[verifier::type_invariant]
    pub open spec fn wf(self) -> bool {
        is_positive_finite_bits(self.spec_bits())
    }

    /// Classifies a raw bit pattern and wraps it when it encodes a finite,
    /// non-negative double. A NaN or infinity is rejected as `NonFinite`
    /// first, so a negative NaN reports `NonFinite`, not `Negative`; a
    /// finite pattern with the sign bit set (negative zero included) is
    /// rejected as `Negative`.
    pub fn from_bits(bits: u64) -> (result: Result<Self, InvalidFloatError>)
        ensures
            is_non_finite_bits(bits) ==> result == Result::<
                Self,
                InvalidFloatError,
            >::Err(InvalidFloatError::NonFinite),
            !is_non_finite_bits(bits) && is_sign_negative_bits(bits) ==> result == Result::<
                Self,
                InvalidFloatError,
            >::Err(InvalidFloatError::Negative),
            is_positive_finite_bits(bits) ==> (result matches Ok(v) && v.spec_bits() == bits),
    {
        if bits & F64_EXPONENT_MASK == F64_EXPONENT_MASK {
            Err(InvalidFloatError::NonFinite)
        } else if bits & F64_SIGN_MASK == F64_SIGN_MASK {
            Err(InvalidFloatError::Negative)
        } else {
            Ok(PositiveFiniteF64 { bits })
        }
    }

    /// The wrapped value, verbatim, as its IEEE-754 bit pattern.
    pub fn value(&self) -> (bits: u64)
        ensures
            bits == self.spec_bits(),
            is_positive_finite_bits(bits),
    {
        proof {
            use_type_invariant(self);
        }
        self.bits
    }
}

} // verus!
