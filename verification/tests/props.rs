//! Concrete checks of the engine's stated properties: the gravity
//! singularity guard and falloff, prediction/live agreement, and damage
//! accounting.

use orbital_artillery::vec2::Vec2;
use orbital_artillery::geom::Circle;
use orbital_artillery::gravity::{gravity_one, gravity_accel};
use orbital_artillery::entities::World;
use orbital_artillery::events::Explode;
use orbital_artillery::damage::damage_asteroid;
use orbital_artillery::weapon::weapon_move_update;
use orbital_artillery::sim::step_kinematics;
use orbital_artillery::predict::{calculate_position, predict_path};

fn half_asteroid() -> Circle {
    Circle { centre: Vec2::new(0, 0), radius: 50_000 }
}

#[test]
fn gravity_is_zero_within_the_guard_distance() {
    let a = half_asteroid();
    let g = gravity_one(&a, Vec2::new(500, 0));
    assert_eq!((g.x, g.y), (0, 0));
    let g = gravity_one(&a, Vec2::new(0, 1_000));
    assert_eq!((g.x, g.y), (0, 0));
    let g = gravity_one(&a, Vec2::new(0, 0));
    assert_eq!((g.x, g.y), (0, 0));
}

#[test]
fn gravity_grows_as_distance_shrinks_and_points_at_the_centre() {
    let a = half_asteroid();
    // mass = 3 * 50^2, so the pull at distance d units is 7500/d^2 units/s^2.
    let near = gravity_one(&a, Vec2::new(100_000, 0));
    let mid = gravity_one(&a, Vec2::new(200_000, 0));
    let far = gravity_one(&a, Vec2::new(400_000, 0));
    assert_eq!(near.x, -750);
    assert_eq!(mid.x, -187);
    assert_eq!(far.x, -46);
    assert!(near.x < mid.x && mid.x < far.x);
    assert_eq!(near.y, 0);
    // The same magnitudes pull the other way from the other side.
    let left = gravity_one(&a, Vec2::new(-100_000, 0));
    assert_eq!(left.x, 750);
}

#[test]
fn field_acceleration_sums_over_asteroids() {
    let asts = vec![
        Circle { centre: Vec2::new(-100_000, 0), radius: 50_000 },
        Circle { centre: Vec2::new(100_000, 0), radius: 50_000 },
    ];
    // Symmetric pulls cancel at the midpoint.
    let g = gravity_accel(&asts, Vec2::new(0, 0));
    assert_eq!((g.x, g.y), (0, 0));
}

#[test]
fn prediction_matches_live_simulation_step_for_step() {
    let mut world = World::new();
    world.setup_players();
    world.add_asteroid(0, -215_000);
    world.add_asteroid(-60_000, 0);
    let circles = world.live_circles();
    let start = Vec2::new(10_000, 120_000);
    let thrust = Vec2::new(40_000, 55_000);
    world.weapons.push(orbital_artillery::weapon::Weapon {
        thrust,
        fuel: 10_000,
        size: Vec2::new(12_000, 36_000),
        pos: start,
        rot: orbital_artillery::vec2::Rot { c: 1000, s: 0 },
        active: true,
    });
    let steps = 25;
    let path = predict_path(&circles, start, thrust, steps * 20);
    assert_eq!(path.len(), steps as usize);
    for i in 0..steps as usize {
        weapon_move_update(&mut world, &circles, 20);
        let live = world.weapons[0].pos;
        assert_eq!((live.x, live.y), (path[i].x, path[i].y));
    }
    // The single-position query agrees with the end of the path.
    let p = calculate_position(&circles, start, steps * 20, thrust);
    assert_eq!((p.x, p.y), (path[steps as usize - 1].x, path[steps as usize - 1].y));
}

#[test]
fn prediction_without_gravity_is_uniform_motion() {
    let none: Vec<Circle> = Vec::new();
    let path = predict_path(&none, Vec2::new(0, 0), Vec2::new(100_000, 0), 100);
    assert_eq!(path.len(), 5);
    for (i, p) in path.iter().enumerate() {
        assert_eq!(p.x, 2_000 * (i as i64 + 1));
        assert_eq!(p.y, 0);
    }
}

#[test]
fn step_is_deterministic() {
    let asts = vec![half_asteroid()];
    let a = step_kinematics(&asts, Vec2::new(90_000, 0), Vec2::new(0, 30_000), 20);
    let b = step_kinematics(&asts, Vec2::new(90_000, 0), Vec2::new(0, 30_000), 20);
    assert_eq!(a, b);
}

#[test]
fn radius_equals_initial_minus_summed_damage_until_the_threshold() {
    let mut world = World::new();
    world.setup_players();
    let a = world.add_asteroid(0, 0);
    // Each pass deals 12.5 from an effective distance of 15 units; the
    // radius walks down 50 -> 37.5 -> 25 -> 12.5, and the fourth pass
    // would cross the 8-unit threshold, destroying instead of shrinking.
    let evs = vec![Explode { pos: Vec2::new(65_000, 0), power: 50_000 }];
    let mut expected = 50_000i64;
    for _ in 0..3 {
        let ev_pos = 15_000 + world.asteroids[a].radius;
        let evs = vec![Explode { pos: Vec2::new(ev_pos, 0), power: 50_000 }];
        let events = damage_asteroid(&mut world, &evs);
        expected -= 12_500;
        assert_eq!(world.asteroids[a].radius, expected);
        assert!(events.is_empty());
    }
    let _ = evs;
    let ev_pos = 15_000 + world.asteroids[a].radius;
    let evs = vec![Explode { pos: Vec2::new(ev_pos, 0), power: 50_000 }];
    let events = damage_asteroid(&mut world, &evs);
    assert!(!world.asteroids[a].alive);
    assert_eq!(world.asteroids[a].radius, 12_500);
    assert_eq!(events.len(), 1);
}
