//! IEEE 754 binary32 numbers, read through their bit patterns.
//!
//! A pattern holds, from the top, one sign bit, eight bits of biased exponent
//! and twenty-three bits of fraction. An exponent field of all ones with a
//! nonzero fraction is a NaN; an exponent field and a fraction that are both
//! zero are a zero, which still carries its sign.

use vstd::prelude::*;

verus! {

/// The pattern of `+0.0`.
pub const POSITIVE_ZERO: u32 = 0x0000_0000;

/// The pattern of `-0.0`.
pub const NEGATIVE_ZERO: u32 = 0x8000_0000;

/// The pattern of `1.0`.
pub const POSITIVE_ONE: u32 = 0x3f80_0000;

/// The pattern of `-1.0`.
pub const NEGATIVE_ONE: u32 = 0xbf80_0000;

/// The pattern of the quiet NaN with a clear sign and an otherwise empty fraction.
pub const QUIET_NAN: u32 = 0x7fc0_0000;

/// The pattern of the binary32 number nearest to π.
pub const PI: u32 = 0x4049_0fdb;

/// The sign field of a pattern: bit 31.
pub open spec fn sign_field(bits: u32) -> nat {
    (bits / 0x8000_0000) as nat
}

/// The biased exponent field of a pattern: bits 23 to 30.
pub open spec fn exponent_field(bits: u32) -> nat {
    (bits / 0x80_0000 % 0x100) as nat
}

/// The fraction field of a pattern: bits 0 to 22.
pub open spec fn fraction_field(bits: u32) -> nat {
    (bits % 0x80_0000) as nat
}

/// Where a binary32 number stands relative to zero.
///
/// Infinities count as `Negative` and `Positive`. The two zeros are kept
/// apart because `signum` tells them apart, although they compare equal.
#[derive(Clone, Copy, Debug, PartialEq, Eq, Structural)]
pub enum Class {
    /// Not a number: unordered with everything, itself included.
    Nan,
    /// Less than zero.
    Negative,
    /// Zero with the sign bit set.
    NegativeZero,
    /// Zero with the sign bit clear.
    PositiveZero,
    /// Greater than zero.
    Positive,
}

impl Class {
    /// Whether a number of this class compares equal to zero.
    pub open spec fn is_zero(self) -> bool {
        self is NegativeZero || self is PositiveZero
    }

    /// Whether a number of this class is no NaN and has its sign bit clear.
    pub open spec fn sign_is_clear(self) -> bool {
        self is PositiveZero || self is Positive
    }

    /// Whether a number of this class is no NaN and has its sign bit set.
    pub open spec fn sign_is_set(self) -> bool {
        self is NegativeZero || self is Negative
    }
}

/// The class of the number that `bits` encodes.
pub open spec fn class_of(bits: u32) -> Class {
    if exponent_field(bits) == 0xff && fraction_field(bits) != 0 {
        Class::Nan
    } else if exponent_field(bits) == 0 && fraction_field(bits) == 0 {
        if sign_field(bits) == 1 {
            Class::NegativeZero
        } else {
            Class::PositiveZero
        }
    } else if sign_field(bits) == 1 {
        Class::Negative
    } else {
        Class::Positive
    }
}

/// Classifies the number that `bits` encodes.
pub fn classify(bits: u32) -> (class: Class)
    ensures
        class == class_of(bits),
{
    let magnitude: u32 = bits & 0x7fff_ffff;
    let negative: bool = bits & 0x8000_0000 != 0;
    proof {
        assert((bits & 0x7fff_ffff) > 0x7f80_0000 <==> (bits / 0x80_0000 % 0x100 == 0xff && bits
            % 0x80_0000 != 0)) by (bit_vector);
        assert((bits & 0x7fff_ffff) == 0 <==> (bits / 0x80_0000 % 0x100 == 0 && bits % 0x80_0000
            == 0)) by (bit_vector);
        assert((bits & 0x8000_0000) != 0 <==> bits / 0x8000_0000 == 1) by (bit_vector);
    }
    if magnitude > 0x7f80_0000 {
        Class::Nan
    } else if magnitude == 0 {
        if negative {
            Class::NegativeZero
        } else {
            Class::PositiveZero
        }
    } else if negative {
        Class::Negative
    } else {
        Class::Positive
    }
}

/// Whether the number that `bits` encodes compares equal to zero. Both zeros
/// do; a NaN does not.
pub fn eq_zero(bits: u32) -> (holds: bool)
    ensures
        holds == class_of(bits).is_zero(),
{
    match classify(bits) {
        Class::NegativeZero | Class::PositiveZero => true,
        _ => false,
    }
}

/// Whether the number that `bits` encodes compares less than zero.
pub fn lt_zero(bits: u32) -> (holds: bool)
    ensures
        holds == (class_of(bits) is Negative),
{
    match classify(bits) {
        Class::Negative => true,
        _ => false,
    }
}

/// Whether the number that `bits` encodes compares greater than zero.
pub fn gt_zero(bits: u32) -> (holds: bool)
    ensures
        holds == (class_of(bits) is Positive),
{
    match classify(bits) {
        Class::Positive => true,
        _ => false,
    }
}

/// Whether the number that `bits` encodes compares greater than or equal to
/// zero. Both zeros do; a NaN does not.
pub fn ge_zero(bits: u32) -> (holds: bool)
    ensures
        holds == (class_of(bits).is_zero() || class_of(bits) is Positive),
{
    match classify(bits) {
        Class::NegativeZero | Class::PositiveZero | Class::Positive => true,
        _ => false,
    }
}

/// The pattern of the sign of the number that `bits` encodes: `1.0` where the
/// sign bit is clear, `-1.0` where it is set, and a NaN for a NaN. A zero has
/// the sign of its sign bit.
pub open spec fn signum_of(bits: u32) -> u32 {
    if class_of(bits) is Nan {
        QUIET_NAN
    } else if class_of(bits).sign_is_set() {
        NEGATIVE_ONE
    } else {
        POSITIVE_ONE
    }
}

/// The sign of the number that `bits` encodes, as a pattern.
pub fn signum(bits: u32) -> (sign: u32)
    ensures
        sign == signum_of(bits),
{
    match classify(bits) {
        Class::Nan => QUIET_NAN,
        Class::Negative | Class::NegativeZero => NEGATIVE_ONE,
        Class::PositiveZero | Class::Positive => POSITIVE_ONE,
    }
}

/// The sign of a number is never a zero: it is greater than zero exactly when
/// the number is no NaN and its sign bit is clear, less than zero exactly when
/// the number is no NaN and its sign bit is set, and a NaN exactly for a NaN.
pub proof fn lemma_signum_class(bits: u32)
    ensures
        class_of(signum_of(bits)) is Positive <==> class_of(bits).sign_is_clear(),
        class_of(signum_of(bits)) is Negative <==> class_of(bits).sign_is_set(),
        class_of(signum_of(bits)) is Nan <==> class_of(bits) is Nan,
{
}

/// The zeros are the two patterns with nothing set below the sign bit.
pub proof fn lemma_zero_patterns(bits: u32)
    ensures
        class_of(bits) is PositiveZero <==> bits == POSITIVE_ZERO,
        class_of(bits) is NegativeZero <==> bits == NEGATIVE_ZERO,
{
    assert((bits / 0x80_0000 % 0x100 == 0 && bits % 0x80_0000 == 0) <==> (bits == 0 || bits
        == 0x8000_0000)) by (bit_vector);
    assert(bits == 0x8000_0000 ==> bits / 0x8000_0000 == 1) by (bit_vector);
}

} // verus!
