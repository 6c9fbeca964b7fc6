//! The branches of the conversion from Cartesian to spherical coordinates.
//!
//! The azimuth `theta` of a point is first computed as `atan(y / x)`, which
//! lies in the right half-plane whatever the signs of `x` and `y` were. This
//! module decides, from the bit patterns of `x`, `y` and that raw azimuth,
//! whether the point sits on the polar axis, where both angles are zero by
//! convention, and otherwise how the raw azimuth is moved into the half-plane
//! of the point.

use vstd::prelude::*;
use crate::binary32::{
    class_of, eq_zero, ge_zero, gt_zero, lemma_signum_class, lemma_zero_patterns, lt_zero, signum,
    signum_of, Class, NEGATIVE_ZERO, POSITIVE_ZERO,
};

verus! {

/// What becomes of the raw azimuth `atan(y / x)`.
#[derive(Clone, Copy, Debug, PartialEq, Eq, Structural)]
pub enum Correction {
    /// The raw azimuth stands.
    Keep,
    /// The azimuth is π, whatever the raw value was.
    SetPi,
    /// The azimuth is the raw value less π.
    SubtractPi,
    /// The azimuth is the raw value plus π.
    AddPi,
}

/// A point is degenerate when `x` and `y` both compare equal to zero: it lies
/// on the polar axis, where no azimuth is defined.
pub open spec fn degenerate(x: u32, y: u32) -> bool {
    class_of(x).is_zero() && class_of(y).is_zero()
}

/// The correction that the raw azimuth `theta` of the point `(x, y)` takes,
/// by the classes of the three numbers.
///
/// Nothing is corrected unless `x` is less than zero. Then:
/// - `y` zero: a zero `theta` becomes π.
/// - `y` less than zero: a `theta` with a clear sign bit loses π.
/// - `y` greater than zero: a zero `theta` becomes π, a `theta` less than
///   zero gains π.
/// A NaN in any place leaves `theta` as it is.
pub open spec fn correction(x: u32, y: u32, theta: u32) -> Correction {
    if !(class_of(x) is Negative) {
        Correction::Keep
    } else {
        match class_of(y) {
            Class::Nan => Correction::Keep,
            Class::NegativeZero | Class::PositiveZero => if class_of(theta).is_zero() {
                Correction::SetPi
            } else {
                Correction::Keep
            },
            Class::Negative => if class_of(theta).sign_is_clear() {
                Correction::SubtractPi
            } else {
                Correction::Keep
            },
            Class::Positive => if class_of(theta).is_zero() {
                Correction::SetPi
            } else if class_of(theta) is Negative {
                Correction::AddPi
            } else {
                Correction::Keep
            },
        }
    }
}

/// Whether the point with the coordinates `x` and `y` lies on the polar axis.
pub fn is_degenerate(x: u32, y: u32) -> (on_axis: bool)
    ensures
        on_axis == degenerate(x, y),
{
    eq_zero(x) && eq_zero(y)
}

/// The correction that the raw azimuth `theta` of the point `(x, y)` takes.
pub fn azimuth_correction(x: u32, y: u32, theta: u32) -> (choice: Correction)
    ensures
        choice == correction(x, y, theta),
{
    proof {
        lemma_correction_by_rules(x, y, theta);
    }
    if lt_zero(x) && ge_zero(y) && eq_zero(theta) {
        Correction::SetPi
    } else if lt_zero(x) && lt_zero(y) && gt_zero(signum(theta)) {
        Correction::SubtractPi
    } else if lt_zero(x) && gt_zero(y) && lt_zero(signum(theta)) {
        Correction::AddPi
    } else {
        Correction::Keep
    }
}

/// The same decision as a list of rules, of which the first that applies
/// wins:
/// - `x < 0`, `y >= 0` and `theta == 0`: π replaces `theta`;
/// - `x < 0`, `y < 0` and the sign of `theta` greater than zero: `theta` loses π;
/// - `x < 0`, `y > 0` and the sign of `theta` less than zero: `theta` gains π;
/// - otherwise `theta` stands.
pub open spec fn correction_by_rules(x: u32, y: u32, theta: u32) -> Correction {
    let left: bool = class_of(x) is Negative;
    let sign: Class = class_of(signum_of(theta));
    if left && (class_of(y).is_zero() || class_of(y) is Positive) && class_of(theta).is_zero() {
        Correction::SetPi
    } else if left && class_of(y) is Negative && sign is Positive {
        Correction::SubtractPi
    } else if left && class_of(y) is Positive && sign is Negative {
        Correction::AddPi
    } else {
        Correction::Keep
    }
}

/// The table of classes and the list of rules decide alike.
pub proof fn lemma_correction_by_rules(x: u32, y: u32, theta: u32)
    ensures
        correction(x, y, theta) == correction_by_rules(x, y, theta),
{
    lemma_signum_class(theta);
}

/// The points on the polar axis are those whose `x` and `y` are each one of
/// the two zero patterns; `z` has no say in it.
pub proof fn lemma_degenerate_patterns(x: u32, y: u32)
    ensures
        degenerate(x, y) <==> (x == POSITIVE_ZERO || x == NEGATIVE_ZERO) && (y == POSITIVE_ZERO
            || y == NEGATIVE_ZERO),
{
    lemma_zero_patterns(x);
    lemma_zero_patterns(y);
}

/// A point whose `x` is not less than zero keeps its raw azimuth, whatever `y`
/// and the raw azimuth are.
pub proof fn lemma_right_half_plane_keeps(x: u32, y: u32, theta: u32)
    requires
        !(class_of(x) is Negative),
    ensures
        correction(x, y, theta) == Correction::Keep,
{
}

/// A NaN passes through: with a NaN among `x`, `y` and the raw azimuth nothing
/// is corrected, and a point with a NaN for `x` or `y` is not degenerate.
pub proof fn lemma_nan_passes(x: u32, y: u32, theta: u32)
    requires
        class_of(x) is Nan || class_of(y) is Nan || class_of(theta) is Nan,
    ensures
        correction(x, y, theta) == Correction::Keep,
        class_of(x) is Nan || class_of(y) is Nan ==> !degenerate(x, y),
{
}

/// Every correction reads the raw azimuth it corrects: π replaces only a zero,
/// is taken only from a raw azimuth that is no NaN and has a clear sign bit,
/// and is added only to one less than zero.
pub proof fn lemma_correction_reads_raw_azimuth(x: u32, y: u32, theta: u32)
    ensures
        correction(x, y, theta) is SetPi ==> class_of(theta).is_zero(),
        correction(x, y, theta) is SubtractPi ==> class_of(theta).sign_is_clear(),
        correction(x, y, theta) is AddPi ==> class_of(theta) is Negative,
{
}

/// Whether `theta` has the sign of an arctangent of `y / x` for an `x` less
/// than zero: it is no NaN, its sign bit is the opposite of that of `y`, and it
/// is a zero where `y` is one.
pub open spec fn follows_quotient(y: u32, theta: u32) -> bool {
    match class_of(y) {
        Class::Nan => false,
        Class::Negative => class_of(theta).sign_is_clear(),
        Class::NegativeZero => class_of(theta) is PositiveZero,
        Class::PositiveZero => class_of(theta) is NegativeZero,
        Class::Positive => class_of(theta).sign_is_set(),
    }
}

/// In the left half-plane the quadrant decides. With `x` less than zero and a
/// raw azimuth that has the sign of the quotient `y / x`: on the axis itself
/// (`y` zero) the azimuth is π; below it (`y` less than zero) the raw azimuth
/// loses π; above it (`y` greater than zero) the raw azimuth gains π, or is π
/// where the quotient was too small to be told from zero.
pub proof fn lemma_left_half_plane(x: u32, y: u32, theta: u32)
    requires
        class_of(x) is Negative,
        follows_quotient(y, theta),
    ensures
        correction(x, y, theta) == match class_of(y) {
            Class::Negative => Correction::SubtractPi,
            Class::Positive => if class_of(theta) is NegativeZero {
                Correction::SetPi
            } else {
                Correction::AddPi
            },
            _ => Correction::SetPi,
        },
{
}

} // verus!
