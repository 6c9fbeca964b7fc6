//! From Cartesian to spherical coordinates.
//!
//! The conversion is a computation that stops wherever it needs arithmetic:
//! it names the operation, and goes on when it is resumed with the answer.

use vstd::prelude::*;
use crate::arithmetic::Op;
use crate::binary32::{NEGATIVE_ZERO, PI, POSITIVE_ZERO};
use crate::coordinates::{Cartesian, Spherical};
use crate::quadrant::{
    azimuth_correction, correction, degenerate, is_degenerate, lemma_degenerate_patterns,
    Correction,
};

verus! {

/// The spherical coordinates of `point`, where `unit` gives the answer to
/// every operation.
///
/// The radius is the norm of the point. On the polar axis both angles are
/// zero. Elsewhere the polar angle is the arctangent of the norm of `(x, y)`
/// over `z`, and the azimuth is the arctangent of `y` over `x`, corrected for
/// the quadrant.
pub open spec fn spherical_of(unit: spec_fn(Op) -> u32, point: Cartesian) -> Spherical {
    let r: u32 = unit(Op::Norm3(point.x, point.y, point.z));
    if degenerate(point.x, point.y) {
        Spherical { r, theta: POSITIVE_ZERO, phi: POSITIVE_ZERO }
    } else {
        let raw: u32 = unit(Op::Atan(unit(Op::Div(point.y, point.x))));
        let planar: u32 = unit(Op::Norm2(point.x, point.y));
        let phi: u32 = unit(Op::Atan(unit(Op::Div(planar, point.z))));
        let theta: u32 = match correction(point.x, point.y, raw) {
            Correction::Keep => raw,
            Correction::SetPi => PI,
            Correction::SubtractPi => unit(Op::Sub(raw, PI)),
            Correction::AddPi => unit(Op::Add(raw, PI)),
        };
        Spherical { r, theta, phi }
    }
}

/// A conversion that waits for an answer. Each variant is named after the
/// number it waits for and holds what has been found so far.
#[derive(Clone, Copy, Debug, PartialEq, Eq, Structural)]
pub enum Pending {
    /// The norm of the point.
    Radius { point: Cartesian },
    /// `y / x`.
    Slope { point: Cartesian, r: u32 },
    /// The arctangent of the slope.
    RawAzimuth { point: Cartesian, r: u32 },
    /// The norm of `(x, y)`.
    PlanarRadius { point: Cartesian, r: u32, raw: u32 },
    /// The norm of `(x, y)` over `z`.
    Steepness { point: Cartesian, r: u32, raw: u32 },
    /// The arctangent of the steepness.
    PolarAngle { point: Cartesian, r: u32, raw: u32 },
    /// The raw azimuth moved by π.
    Azimuth { r: u32, phi: u32 },
}

/// Where a conversion stands: it asks for an operation, or it is done.
#[derive(Clone, Copy, Debug, PartialEq, Eq, Structural)]
pub enum Step {
    /// The conversion needs the answer to the operation to go on.
    Ask(Op, Pending),
    /// The spherical coordinates.
    Done(Spherical),
}

/// Where the conversion of `point` starts.
pub open spec fn first_step(point: Cartesian) -> Step {
    Step::Ask(Op::Norm3(point.x, point.y, point.z), Pending::Radius { point })
}

/// Where a conversion stands once `pending` has its answer.
pub open spec fn next_step(pending: Pending, answer: u32) -> Step {
    match pending {
        Pending::Radius { point } => if degenerate(point.x, point.y) {
            Step::Done(Spherical { r: answer, theta: POSITIVE_ZERO, phi: POSITIVE_ZERO })
        } else {
            Step::Ask(Op::Div(point.y, point.x), Pending::Slope { point, r: answer })
        },
        Pending::Slope { point, r } => Step::Ask(
            Op::Atan(answer),
            Pending::RawAzimuth { point, r },
        ),
        Pending::RawAzimuth { point, r } => Step::Ask(
            Op::Norm2(point.x, point.y),
            Pending::PlanarRadius { point, r, raw: answer },
        ),
        Pending::PlanarRadius { point, r, raw } => Step::Ask(
            Op::Div(answer, point.z),
            Pending::Steepness { point, r, raw },
        ),
        Pending::Steepness { point, r, raw } => Step::Ask(
            Op::Atan(answer),
            Pending::PolarAngle { point, r, raw },
        ),
        Pending::PolarAngle { point, r, raw } => match correction(point.x, point.y, raw) {
            Correction::Keep => Step::Done(Spherical { r, theta: raw, phi: answer }),
            Correction::SetPi => Step::Done(Spherical { r, theta: PI, phi: answer }),
            Correction::SubtractPi => Step::Ask(
                Op::Sub(raw, PI),
                Pending::Azimuth { r, phi: answer },
            ),
            Correction::AddPi => Step::Ask(
                Op::Add(raw, PI),
                Pending::Azimuth { r, phi: answer },
            ),
        },
        Pending::Azimuth { r, phi } => Step::Done(Spherical { r, theta: answer, phi }),
    }
}

/// Starts the conversion of `point`. It asks for the norm of the point.
pub fn cartesian_to_spherical(point: Cartesian) -> (step: Step)
    ensures
        step == first_step(point),
{
    Step::Ask(Op::Norm3(point.x, point.y, point.z), Pending::Radius { point })
}

impl Pending {
    /// Goes on with `answer` for the operation that was asked.
    pub fn resume(self, answer: u32) -> (step: Step)
        ensures
            step == next_step(self, answer),
    {
        match self {
            Pending::Radius { point } => {
                if is_degenerate(point.x, point.y) {
                    Step::Done(Spherical { r: answer, theta: POSITIVE_ZERO, phi: POSITIVE_ZERO })
                } else {
                    Step::Ask(Op::Div(point.y, point.x), Pending::Slope { point, r: answer })
                }
            },
            Pending::Slope { point, r } => {
                Step::Ask(Op::Atan(answer), Pending::RawAzimuth { point, r })
            },
            Pending::RawAzimuth { point, r } => {
                Step::Ask(
                    Op::Norm2(point.x, point.y),
                    Pending::PlanarRadius { point, r, raw: answer },
                )
            },
            Pending::PlanarRadius { point, r, raw } => {
                Step::Ask(Op::Div(answer, point.z), Pending::Steepness { point, r, raw })
            },
            Pending::Steepness { point, r, raw } => {
                Step::Ask(Op::Atan(answer), Pending::PolarAngle { point, r, raw })
            },
            Pending::PolarAngle { point, r, raw } => {
                let phi: u32 = answer;
                match azimuth_correction(point.x, point.y, raw) {
                    Correction::Keep => Step::Done(Spherical { r, theta: raw, phi }),
                    Correction::SetPi => Step::Done(Spherical { r, theta: PI, phi }),
                    Correction::SubtractPi => {
                        Step::Ask(Op::Sub(raw, PI), Pending::Azimuth { r, phi })
                    },
                    Correction::AddPi => {
                        Step::Ask(Op::Add(raw, PI), Pending::Azimuth { r, phi })
                    },
                }
            },
            Pending::Azimuth { r, phi } => Step::Done(Spherical { r, theta: answer, phi }),
        }
    }
}

/// Where a conversion that stands at `step` has come to after at most `turns`
/// answers, each of them the one that `unit` gives.
pub open spec fn run(unit: spec_fn(Op) -> u32, step: Step, turns: nat) -> Step
    decreases turns,
{
    match step {
        Step::Done(_) => step,
        Step::Ask(op, pending) => if turns == 0 {
            step
        } else {
            run(unit, next_step(pending, unit(op)), (turns - 1) as nat)
        },
    }
}

/// A conversion answered by `unit` is done after seven answers at most, and
/// what it has then are the spherical coordinates that `unit` gives the point.
pub proof fn lemma_conversion_completes(unit: spec_fn(Op) -> u32, point: Cartesian)
    ensures
        run(unit, first_step(point), 7) == Step::Done(spherical_of(unit, point)),
{
    reveal_with_fuel(run, 8);
}

/// The radius that a conversion answered by `unit` ends with is the norm of
/// the point as `unit` computes it, on the polar axis and off it.
pub proof fn lemma_radius_is_the_norm(unit: spec_fn(Op) -> u32, point: Cartesian)
    ensures
        run(unit, first_step(point), 7) matches Step::Done(spherical) && spherical.r == unit(
            Op::Norm3(point.x, point.y, point.z),
        ),
{
    lemma_conversion_completes(unit, point);
}

/// A conversion of a point whose `x` and `y` are zeros, of either sign, ends
/// with the norm of the point for the radius and a positive zero for each
/// angle, whatever `z` is.
pub proof fn lemma_on_the_polar_axis(unit: spec_fn(Op) -> u32, point: Cartesian)
    requires
        point.x == POSITIVE_ZERO || point.x == NEGATIVE_ZERO,
        point.y == POSITIVE_ZERO || point.y == NEGATIVE_ZERO,
    ensures
        run(unit, first_step(point), 7) == Step::Done(
            Spherical {
                r: unit(Op::Norm3(point.x, point.y, point.z)),
                theta: POSITIVE_ZERO,
                phi: POSITIVE_ZERO,
            },
        ),
{
    lemma_degenerate_patterns(point.x, point.y);
    lemma_conversion_completes(unit, point);
}

/// At most so many operations does a conversion still ask for once `pending`
/// has its answer.
pub open spec fn asks_left(pending: Pending) -> nat {
    match pending {
        Pending::Radius { .. } => 6,
        Pending::Slope { .. } => 5,
        Pending::RawAzimuth { .. } => 4,
        Pending::PlanarRadius { .. } => 3,
        Pending::Steepness { .. } => 2,
        Pending::PolarAngle { .. } => 1,
        Pending::Azimuth { .. } => 0,
    }
}

/// Whatever the answers are, a conversion runs out of questions: each answer
/// leaves fewer operations to ask for.
pub proof fn lemma_questions_run_out(pending: Pending, answer: u32)
    ensures
        next_step(pending, answer) matches Step::Ask(_, next) ==> asks_left(next) < asks_left(
            pending,
        ),
{
}

} // verus!
