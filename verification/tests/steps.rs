use spherical_coords::arithmetic::Op;
use spherical_coords::binary32::{NEGATIVE_ZERO, PI, POSITIVE_ZERO};
use spherical_coords::coordinates::{Cartesian, Spherical};
use spherical_coords::{to_cartesian, to_spherical};

fn bits(value: f32) -> u32 {
    value.to_bits()
}

#[test]
fn to_spherical_starts_with_the_norm() {
    let point = Cartesian { x: 11, y: 12, z: 13 };
    assert_eq!(
        to_spherical::cartesian_to_spherical(point),
        to_spherical::Step::Ask(Op::Norm3(11, 12, 13), to_spherical::Pending::Radius { point })
    );
}

#[test]
fn to_spherical_on_the_axis_is_done_with_the_norm() {
    for x in [POSITIVE_ZERO, NEGATIVE_ZERO] {
        for y in [POSITIVE_ZERO, NEGATIVE_ZERO] {
            let point = Cartesian { x, y, z: 13 };
            assert_eq!(
                to_spherical::Pending::Radius { point }.resume(21),
                to_spherical::Step::Done(Spherical {
                    r: 21,
                    theta: POSITIVE_ZERO,
                    phi: POSITIVE_ZERO
                })
            );
        }
    }
}

#[test]
fn to_spherical_off_the_axis_asks_in_turn() {
    let point = Cartesian { x: bits(60.0), y: bits(25.0), z: bits(293.0) };
    let (x, y, z) = (point.x, point.y, point.z);
    assert_eq!(
        to_spherical::Pending::Radius { point }.resume(21),
        to_spherical::Step::Ask(Op::Div(y, x), to_spherical::Pending::Slope { point, r: 21 })
    );
    assert_eq!(
        to_spherical::Pending::Slope { point, r: 21 }.resume(22),
        to_spherical::Step::Ask(Op::Atan(22), to_spherical::Pending::RawAzimuth { point, r: 21 })
    );
    assert_eq!(
        to_spherical::Pending::RawAzimuth { point, r: 21 }.resume(23),
        to_spherical::Step::Ask(
            Op::Norm2(x, y),
            to_spherical::Pending::PlanarRadius { point, r: 21, raw: 23 }
        )
    );
    assert_eq!(
        to_spherical::Pending::PlanarRadius { point, r: 21, raw: 23 }.resume(24),
        to_spherical::Step::Ask(
            Op::Div(24, z),
            to_spherical::Pending::Steepness { point, r: 21, raw: 23 }
        )
    );
    assert_eq!(
        to_spherical::Pending::Steepness { point, r: 21, raw: 23 }.resume(25),
        to_spherical::Step::Ask(
            Op::Atan(25),
            to_spherical::Pending::PolarAngle { point, r: 21, raw: 23 }
        )
    );
    assert_eq!(
        to_spherical::Pending::PolarAngle { point, r: 21, raw: 23 }.resume(26),
        to_spherical::Step::Done(Spherical { r: 21, theta: 23, phi: 26 })
    );
}

#[test]
fn to_spherical_on_the_negative_x_axis_ends_with_pi() {
    let point = Cartesian { x: bits(-60.0), y: bits(0.0), z: bits(293.0) };
    assert_eq!(
        to_spherical::Pending::PolarAngle { point, r: 21, raw: bits(-0.0) }.resume(26),
        to_spherical::Step::Done(Spherical { r: 21, theta: PI, phi: 26 })
    );
}

#[test]
fn to_spherical_in_the_third_quadrant_asks_for_the_difference() {
    let point = Cartesian { x: bits(-60.0), y: bits(-60.0), z: bits(293.0) };
    let raw: u32 = bits(0.785_398_2);
    assert_eq!(
        to_spherical::Pending::PolarAngle { point, r: 21, raw }.resume(26),
        to_spherical::Step::Ask(Op::Sub(raw, PI), to_spherical::Pending::Azimuth { r: 21, phi: 26 })
    );
}

#[test]
fn to_spherical_in_the_second_quadrant_asks_for_the_sum() {
    let point = Cartesian { x: bits(-60.0), y: bits(60.0), z: bits(293.0) };
    let raw: u32 = bits(-0.785_398_2);
    assert_eq!(
        to_spherical::Pending::PolarAngle { point, r: 21, raw }.resume(26),
        to_spherical::Step::Ask(Op::Add(raw, PI), to_spherical::Pending::Azimuth { r: 21, phi: 26 })
    );
}

#[test]
fn to_spherical_takes_the_moved_azimuth_as_it_comes() {
    assert_eq!(
        to_spherical::Pending::Azimuth { r: 21, phi: 26 }.resume(27),
        to_spherical::Step::Done(Spherical { r: 21, theta: 27, phi: 26 })
    );
}

#[test]
fn to_cartesian_asks_in_turn() {
    let point = Spherical { r: 11, theta: 12, phi: 13 };
    assert_eq!(
        to_cartesian::spherical_to_cartesian(point),
        to_cartesian::Step::Ask(Op::Sin(13), to_cartesian::Pending::PolarSine { point })
    );
    assert_eq!(
        to_cartesian::Pending::PolarSine { point }.resume(21),
        to_cartesian::Step::Ask(Op::Mul(11, 21), to_cartesian::Pending::Planar { point })
    );
    assert_eq!(
        to_cartesian::Pending::Planar { point }.resume(22),
        to_cartesian::Step::Ask(
            Op::Cos(12),
            to_cartesian::Pending::AzimuthCosine { point, planar: 22 }
        )
    );
    assert_eq!(
        to_cartesian::Pending::AzimuthCosine { point, planar: 22 }.resume(23),
        to_cartesian::Step::Ask(Op::Mul(22, 23), to_cartesian::Pending::X { point, planar: 22 })
    );
    assert_eq!(
        to_cartesian::Pending::X { point, planar: 22 }.resume(24),
        to_cartesian::Step::Ask(
            Op::Sin(12),
            to_cartesian::Pending::AzimuthSine { point, planar: 22, x: 24 }
        )
    );
    assert_eq!(
        to_cartesian::Pending::AzimuthSine { point, planar: 22, x: 24 }.resume(25),
        to_cartesian::Step::Ask(Op::Mul(22, 25), to_cartesian::Pending::Y { point, x: 24 })
    );
    assert_eq!(
        to_cartesian::Pending::Y { point, x: 24 }.resume(26),
        to_cartesian::Step::Ask(
            Op::Cos(13),
            to_cartesian::Pending::PolarCosine { point, x: 24, y: 26 }
        )
    );
    assert_eq!(
        to_cartesian::Pending::PolarCosine { point, x: 24, y: 26 }.resume(27),
        to_cartesian::Step::Ask(Op::Mul(11, 27), to_cartesian::Pending::Z { x: 24, y: 26 })
    );
    assert_eq!(
        to_cartesian::Pending::Z { x: 24, y: 26 }.resume(28),
        to_cartesian::Step::Done(Cartesian { x: 24, y: 26, z: 28 })
    );
}
