//! From spherical to Cartesian coordinates.
//!
//! The conversion is a computation that stops wherever it needs arithmetic:
//! it names the operation, and goes on when it is resumed with the answer.

use vstd::prelude::*;
use crate::arithmetic::Op;
use crate::coordinates::{Cartesian, Spherical};

verus! {

/// The Cartesian coordinates of `point`, where `unit` gives the answer to
/// every operation:
/// - `x = r * sin(phi) * cos(theta)`,
/// - `y = r * sin(phi) * sin(theta)`,
/// - `z = r * cos(phi)`,
/// each product taken from the left.
pub open spec fn cartesian_of(unit: spec_fn(Op) -> u32, point: Spherical) -> Cartesian {
    let planar: u32 = unit(Op::Mul(point.r, unit(Op::Sin(point.phi))));
    Cartesian {
        x: unit(Op::Mul(planar, unit(Op::Cos(point.theta)))),
        y: unit(Op::Mul(planar, unit(Op::Sin(point.theta)))),
        z: unit(Op::Mul(point.r, unit(Op::Cos(point.phi)))),
    }
}

/// A conversion that waits for an answer. Each variant is named after the
/// number it waits for and holds what has been found so far; `planar` is
/// `r * sin(phi)`, the distance from the polar axis.
#[derive(Clone, Copy, Debug, PartialEq, Eq, Structural)]
pub enum Pending {
    /// `sin(phi)`.
    PolarSine { point: Spherical },
    /// `r * sin(phi)`.
    Planar { point: Spherical },
    /// `cos(theta)`.
    AzimuthCosine { point: Spherical, planar: u32 },
    /// `planar * cos(theta)`.
    X { point: Spherical, planar: u32 },
    /// `sin(theta)`.
    AzimuthSine { point: Spherical, planar: u32, x: u32 },
    /// `planar * sin(theta)`.
    Y { point: Spherical, x: u32 },
    /// `cos(phi)`.
    PolarCosine { point: Spherical, x: u32, y: u32 },
    /// `r * cos(phi)`.
    Z { x: u32, y: u32 },
}

/// Where a conversion stands: it asks for an operation, or it is done.
#[derive(Clone, Copy, Debug, PartialEq, Eq, Structural)]
pub enum Step {
    /// The conversion needs the answer to the operation to go on.
    Ask(Op, Pending),
    /// The Cartesian coordinates.
    Done(Cartesian),
}

/// Where the conversion of `point` starts.
pub open spec fn first_step(point: Spherical) -> Step {
    Step::Ask(Op::Sin(point.phi), Pending::PolarSine { point })
}

/// Where a conversion stands once `pending` has its answer.
pub open spec fn next_step(pending: Pending, answer: u32) -> Step {
    match pending {
        Pending::PolarSine { point } => Step::Ask(
            Op::Mul(point.r, answer),
            Pending::Planar { point },
        ),
        Pending::Planar { point } => Step::Ask(
            Op::Cos(point.theta),
            Pending::AzimuthCosine { point, planar: answer },
        ),
        Pending::AzimuthCosine { point, planar } => Step::Ask(
            Op::Mul(planar, answer),
            Pending::X { point, planar },
        ),
        Pending::X { point, planar } => Step::Ask(
            Op::Sin(point.theta),
            Pending::AzimuthSine { point, planar, x: answer },
        ),
        Pending::AzimuthSine { point, planar, x } => Step::Ask(
            Op::Mul(planar, answer),
            Pending::Y { point, x },
        ),
        Pending::Y { point, x } => Step::Ask(
            Op::Cos(point.phi),
            Pending::PolarCosine { point, x, y: answer },
        ),
        Pending::PolarCosine { point, x, y } => Step::Ask(
            Op::Mul(point.r, answer),
            Pending::Z { x, y },
        ),
        Pending::Z { x, y } => Step::Done(Cartesian { x, y, z: answer }),
    }
}

/// Starts the conversion of `point`. It asks for the sine of the polar angle.
pub fn spherical_to_cartesian(point: Spherical) -> (step: Step)
    ensures
        step == first_step(point),
{
    Step::Ask(Op::Sin(point.phi), Pending::PolarSine { point })
}

impl Pending {
    /// Goes on with `answer` for the operation that was asked.
    pub fn resume(self, answer: u32) -> (step: Step)
        ensures
            step == next_step(self, answer),
    {
        match self {
            Pending::PolarSine { point } => {
                Step::Ask(Op::Mul(point.r, answer), Pending::Planar { point })
            },
            Pending::Planar { point } => {
                Step::Ask(Op::Cos(point.theta), Pending::AzimuthCosine { point, planar: answer })
            },
            Pending::AzimuthCosine { point, planar } => {
                Step::Ask(Op::Mul(planar, answer), Pending::X { point, planar })
            },
            Pending::X { point, planar } => {
                Step::Ask(Op::Sin(point.theta), Pending::AzimuthSine { point, planar, x: answer })
            },
            Pending::AzimuthSine { point, planar, x } => {
                Step::Ask(Op::Mul(planar, answer), Pending::Y { point, x })
            },
            Pending::Y { point, x } => {
                Step::Ask(Op::Cos(point.phi), Pending::PolarCosine { point, x, y: answer })
            },
            Pending::PolarCosine { point, x, y } => {
                Step::Ask(Op::Mul(point.r, answer), Pending::Z { x, y })
            },
            Pending::Z { x, y } => Step::Done(Cartesian { x, y, z: answer }),
        }
    }
}

/// Where a conversion that stands at `step` has come to after at most `turns`
/// answers, each of them the one that `unit` gives.
pub open spec fn run(unit: spec_fn(Op) -> u32, step: Step, turns: nat) -> Step
    decreases turns,
{
    match step {
        Step::Done(_) => step,
        Step::Ask(op, pending) => if turns == 0 {
            step
        } else {
            run(unit, next_step(pending, unit(op)), (turns - 1) as nat)
        },
    }
}

/// A conversion answered by `unit` is done after eight answers, and what it
/// has then are the Cartesian coordinates that `unit` gives the point.
pub proof fn lemma_conversion_completes(unit: spec_fn(Op) -> u32, point: Spherical)
    ensures
        run(unit, first_step(point), 8) == Step::Done(cartesian_of(unit, point)),
{
    reveal_with_fuel(run, 9);
}

/// So many operations does a conversion still ask for once `pending` has its
/// answer.
pub open spec fn asks_left(pending: Pending) -> nat {
    match pending {
        Pending::PolarSine { .. } => 7,
        Pending::Planar { .. } => 6,
        Pending::AzimuthCosine { .. } => 5,
        Pending::X { .. } => 4,
        Pending::AzimuthSine { .. } => 3,
        Pending::Y { .. } => 2,
        Pending::PolarCosine { .. } => 1,
        Pending::Z { .. } => 0,
    }
}

/// Whatever the answers are, a conversion runs out of questions: each answer
/// leaves one operation fewer to ask for, and the last one ends it.
pub proof fn lemma_questions_run_out(pending: Pending, answer: u32)
    ensures
        match next_step(pending, answer) {
            Step::Ask(_, next) => asks_left(next) + 1 == asks_left(pending),
            Step::Done(_) => asks_left(pending) == 0,
        },
{
}

} // verus!
