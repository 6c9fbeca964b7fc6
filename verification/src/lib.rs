//! Conversion of a point between Cartesian coordinates `(x, y, z)` and
//! spherical coordinates `(r, theta, phi)`, with angles in radians.
//!
//! The numbers are IEEE 754 binary32 values, handled by their bit patterns.
//! This crate holds everything of the two conversions but the arithmetic:
//! which operations are carried out on which numbers and in which order,
//! every comparison that picks a branch, and what the result is made of.
//! A conversion names one operation at a time; the caller carries it out in
//! floating point and resumes the conversion with the answer.
//!
//! - [`binary32`]: classes of numbers, comparisons with zero, the sign.
//! - [`quadrant`]: the polar axis, and the correction of the azimuth.
//! - [`arithmetic`]: the operations that are asked of the caller.
//! - [`coordinates`]: the two kinds of point.
//! - [`to_spherical`], [`to_cartesian`]: the conversions.

pub mod arithmetic;
pub mod binary32;
pub mod coordinates;
pub mod quadrant;
pub mod to_cartesian;
pub mod to_spherical;
