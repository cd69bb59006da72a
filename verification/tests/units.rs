//! Unit checks of the fixed-point arithmetic and geometry primitives.

use orbital_artillery::fxp::{div_trunc, clamp128, isqrt_u128};
use orbital_artillery::vec2::{Vec2, Rot, sin_mrad};
use orbital_artillery::geom::{Circle, Line, OrientedBox};

#[test]
fn div_trunc_rounds_toward_zero() {
    assert_eq!(div_trunc(7, 2), 3);
    assert_eq!(div_trunc(-7, 2), -3);
    assert_eq!(div_trunc(0, 5), 0);
    assert_eq!(div_trunc(-1, 1000), 0);
}

#[test]
fn clamp128_clamps() {
    assert_eq!(clamp128(5, -3, 3), 3);
    assert_eq!(clamp128(-5, -3, 3), -3);
    assert_eq!(clamp128(2, -3, 3), 2);
}

#[test]
fn isqrt_floor_values() {
    assert_eq!(isqrt_u128(0), 0);
    assert_eq!(isqrt_u128(1), 1);
    assert_eq!(isqrt_u128(10), 3);
    assert_eq!(isqrt_u128(1_225_000_000), 35_000);
    assert_eq!(isqrt_u128(u128::from(u64::MAX)), 4_294_967_295);
}

#[test]
fn fixed_point_sine_is_exact_at_cardinal_angles() {
    assert_eq!(sin_mrad(0), 0);
    assert_eq!(sin_mrad(1571), 1000);
    assert_eq!(sin_mrad(-1571), -1000);
    assert_eq!(sin_mrad(3142), 0);
}

#[test]
fn rotation_from_angle_zero_is_identity() {
    let r = Rot::from_mrad(0);
    assert_eq!(r.c, 1000);
    assert_eq!(r.s, 0);
    let v = r.apply(Vec2::new(123, 456));
    assert_eq!(v.x, 123);
    assert_eq!(v.y, 456);
}

#[test]
fn rotation_by_right_angle_swaps_axes() {
    let r = Rot::from_mrad(1571);
    assert_eq!(r.s, 1000);
    assert_eq!(r.c, 0);
    let v = r.apply(Vec2::new(1000, 0));
    assert_eq!(v.x, 0);
    assert_eq!(v.y, 1000);
}

#[test]
fn vector_distance_is_euclidean_floor() {
    let a = Vec2::new(0, 0);
    let b = Vec2::new(3000, 4000);
    assert_eq!(a.dist_sq(b), 25_000_000);
    assert_eq!(a.dist(b), 5000);
    let c = Vec2::new(1, 1);
    assert_eq!(a.dist(c), 1);
}

#[test]
fn segment_nearest_point_clamps_to_endpoints() {
    let l = Line { start: Vec2::new(0, 0), end: Vec2::new(10_000, 0) };
    let n = l.nearest_point(&Vec2::new(-5_000, 2_000));
    assert_eq!((n.x, n.y), (0, 0));
    let n = l.nearest_point(&Vec2::new(15_000, 2_000));
    assert_eq!((n.x, n.y), (10_000, 0));
    let n = l.nearest_point(&Vec2::new(4_000, 2_000));
    assert_eq!((n.x, n.y), (4_000, 0));
}

#[test]
fn degenerate_segment_yields_start_point() {
    let l = Line { start: Vec2::new(7, 7), end: Vec2::new(7, 7) };
    let n = l.nearest_point(&Vec2::new(100, 100));
    assert_eq!((n.x, n.y), (7, 7));
}

#[test]
fn box_collides_only_when_every_edge_is_near() {
    let circle = Circle { centre: Vec2::new(0, 0), radius: 50_000 };
    // Small box well inside the circle: every edge is near the centre.
    let inside = OrientedBox {
        centre: Vec2::new(0, 31_000),
        size: Vec2::new(12_000, 36_000),
        rot: Rot { c: 1000, s: 0 },
    };
    assert!(inside.collide(&circle));
    // A box poking past the circle: its far edge is not near the centre.
    let poking = OrientedBox {
        centre: Vec2::new(0, 58_000),
        size: Vec2::new(12_000, 36_000),
        rot: Rot { c: 1000, s: 0 },
    };
    assert!(!poking.collide(&circle));
    // A box far away collides with nothing.
    let away = OrientedBox {
        centre: Vec2::new(200_000, 0),
        size: Vec2::new(12_000, 36_000),
        rot: Rot { c: 1000, s: 0 },
    };
    assert!(!away.collide(&circle));
}
