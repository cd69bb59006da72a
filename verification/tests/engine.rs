//! Scenario tests of the combat engine: launching, flight, damage,
//! destruction, turn flow and victory.

use orbital_artillery::consts::{BASE_SHELL, POWER_DEFAULT};
use orbital_artillery::vec2::{Vec2, Rot};
use orbital_artillery::geom::Circle;
use orbital_artillery::entities::{World, Base};
use orbital_artillery::events::{Event, Explode};
use orbital_artillery::weapon::{Weapon, WeaponType, Launch, launch_weapon, launching_system};
use orbital_artillery::damage::{explosion_damage, damage_base, damage_asteroid};
use orbital_artillery::turn::{TurnState, TurnPhase};
use orbital_artillery::player::{PlayerOrder, next_turn, victory_check};
use orbital_artillery::sim::step_kinematics;
use orbital_artillery::game::{Game, TickInput};

fn flat_base() -> Base {
    Base {
        asteroid: 0,
        player: 0,
        angle: 0,
        rot: Rot { c: 1000, s: 0 },
        offset: -8_500,
        health: 100_000,
        pos: Vec2::new(0, 0),
        active: true,
        alive: true,
    }
}

#[test]
fn rocket_climbs_a_hundred_units_in_one_second_without_gravity() {
    // Launch a rocket at angle 0 and power 100 with no asteroid nearby:
    // after 1.0 s its position has risen by power * time = 100 units.
    let b = flat_base();
    let l = Launch {
        angle: 0,
        offset: 12_000,
        thrust: 100_000,
        parent: 0,
        weapon_type: WeaponType::Rocket,
    };
    let w = launch_weapon(&b, &l);
    assert_eq!((w.thrust.x, w.thrust.y), (0, 100_000));
    assert_eq!((w.pos.x, w.pos.y), (0, 12_000));
    assert_eq!(w.fuel, 10_000);
    assert!(w.active);
    let no_asteroids: Vec<Circle> = Vec::new();
    let mut pos = w.pos;
    let mut thrust = w.thrust;
    for _ in 0..50 {
        let (np, nt) = step_kinematics(&no_asteroids, pos, thrust, 20);
        pos = np;
        thrust = nt;
    }
    assert_eq!(pos.y - 12_000, 100_000);
    assert_eq!(pos.x, 0);
    assert_eq!((thrust.x, thrust.y), (0, 100_000));
}

#[test]
fn tracer_is_small_short_lived_and_not_turn_consuming() {
    let b = flat_base();
    let l = Launch {
        angle: 0,
        offset: 12_000,
        thrust: 50_000,
        parent: 0,
        weapon_type: WeaponType::Tracer,
    };
    let w = launch_weapon(&b, &l);
    assert_eq!((w.size.x, w.size.y), (6_000, 6_000));
    assert_eq!(w.fuel, 1_200);
    assert!(!w.active);
    let t = WeaponType::Rocket;
    assert!(t.turn_consuming());
    assert_eq!(t.size().y, 36_000);
    assert_eq!(t.fuel(), 10_000);
}

#[test]
fn explosion_ten_units_from_surface_deals_twenty_five_damage() {
    // Effective distance 10 with blast radius 20 and power 50 gives
    // damage 50 * (20 - 10) / 20 = 25.
    let ev = Explode { pos: Vec2::new(35_000, 0), power: 50_000 };
    let d = explosion_damage(Vec2::new(0, 0), BASE_SHELL, &ev);
    assert_eq!(d, 25_000);
}

#[test]
fn base_health_drops_from_100_to_75() {
    let mut world = World::new();
    world.setup_players();
    let a = world.add_asteroid(0, -215_000);
    let b = world.add_base(a, 0, 0);
    // The base sits at radius - offset = 58.5 units above the centre.
    assert_eq!((world.bases[b].pos.x, world.bases[b].pos.y), (0, -156_500));
    let evs = vec![Explode { pos: Vec2::new(0, -121_500), power: 50_000 }];
    let events = damage_base(&mut world, &evs);
    assert_eq!(world.bases[b].health, 75_000);
    assert!(world.bases[b].alive);
    assert_eq!(world.health_percent_milli(b), 750);
    assert_eq!(events.len(), 0);
}

#[test]
fn out_of_blast_radius_explosions_do_nothing() {
    let mut world = World::new();
    world.setup_players();
    let a = world.add_asteroid(0, 0);
    let b = world.add_base(a, 0, 0);
    // 21 units past the shell correction: no damage at all.
    let evs = vec![Explode { pos: Vec2::new(0, 58_500 + 25_000 + 21_000), power: 50_000 }];
    damage_base(&mut world, &evs);
    assert_eq!(world.bases[b].health, 100_000);
}

#[test]
fn asteroid_shrinks_by_damage_and_bases_track_the_surface() {
    let mut world = World::new();
    world.setup_players();
    let a = world.add_asteroid(0, 0);
    let b = world.add_base(a, 0, 0);
    assert_eq!(world.asteroids[a].radius, 50_000);
    assert_eq!(world.bases[b].pos.y, 58_500);
    // Effective distance 15 (65 from the centre, shell = radius 50):
    // damage 50 * (20 - 15) / 20 = 12.5.
    let evs = vec![Explode { pos: Vec2::new(65_000, 0), power: 50_000 }];
    let events = damage_asteroid(&mut world, &evs);
    assert_eq!(world.asteroids[a].radius, 37_500);
    assert!(world.asteroids[a].alive);
    assert_eq!(events.len(), 0);
    // Surface tracking: the base moved down onto the shrunk surface.
    assert_eq!(world.bases[b].pos.y, 37_500 + 8_500);
    assert_eq!(world.scale_ratio_milli(a), 375);
}

#[test]
fn asteroid_below_minimum_radius_is_destroyed_exactly_once_with_cascade() {
    let mut world = World::new();
    world.setup_players();
    let a = world.add_asteroid(0, 0);
    let b = world.add_base(a, 0, 0);
    // Damage 1000 * (20 - 15) / 20 = 250 would cross the minimum radius:
    // destroyed instead of shrunk, the attached base first.
    let evs = vec![Explode { pos: Vec2::new(65_000, 0), power: 1_000_000 }];
    let events = damage_asteroid(&mut world, &evs);
    assert!(!world.asteroids[a].alive);
    assert_eq!(world.asteroids[a].radius, 50_000);
    assert!(!world.bases[b].alive);
    let destroyed: Vec<&Event> = events
        .iter()
        .filter(|e| matches!(e, Event::AsteroidDestroyed { .. }))
        .collect();
    assert_eq!(destroyed.len(), 1);
    assert_eq!(events.len(), 2);
    assert!(matches!(events[0], Event::AsteroidDestroyed { asteroid } if asteroid == a));
    assert!(matches!(events[1], Event::BaseDestroyed { base } if base == b));
    // The owner's list no longer names the base.
    assert_eq!(world.players[0].bases.len(), 0);
}

#[test]
fn fire_request_emits_launch_and_switches_to_firing() {
    let mut t = TurnState::new();
    t.turn_start(3);
    t.adjust_aim(500);
    t.adjust_power(10_000);
    let l = t.fire_request().unwrap();
    assert_eq!(l.angle, 500);
    assert_eq!(l.thrust, POWER_DEFAULT + 10_000);
    assert_eq!(l.offset, 12_000);
    assert_eq!(l.parent, 3);
    assert_eq!(l.weapon_type, WeaponType::Rocket);
    assert_eq!(t.phase, TurnPhase::Firing);
}

#[test]
fn fire_request_during_firing_is_a_no_op() {
    let mut t = TurnState::new();
    t.turn_start(0);
    assert!(t.fire_request().is_some());
    assert_eq!(t.phase, TurnPhase::Firing);
    let before = t;
    let r = t.fire_request();
    assert!(r.is_none());
    assert_eq!(t, before);
}

#[test]
fn aim_and_power_are_clamped_continuously() {
    let mut t = TurnState::new();
    t.turn_start(0);
    t.adjust_aim(5_000);
    assert_eq!(t.firing_angle, 1_571);
    t.adjust_aim(-10_000);
    assert_eq!(t.firing_angle, -1_571);
    t.adjust_power(1_000_000);
    assert_eq!(t.power, 200_000);
    t.adjust_power(-1_000_000);
    assert_eq!(t.power, 30_000);
    // Outside the aiming phase the inputs are ignored.
    assert!(t.fire_request().is_some());
    t.adjust_aim(100);
    t.adjust_power(100);
    assert_eq!(t.firing_angle, -1_571);
    assert_eq!(t.power, 30_000);
}

#[test]
fn launch_naming_a_missing_base_is_dropped() {
    let mut world = World::new();
    world.setup_players();
    let a = world.add_asteroid(0, 0);
    let b = world.add_base(a, 0, 0);
    world.destroy_base(b);
    let launches = vec![
        Launch { angle: 0, offset: 12_000, thrust: 50_000, parent: b, weapon_type: WeaponType::Rocket },
        Launch { angle: 0, offset: 12_000, thrust: 50_000, parent: 99, weapon_type: WeaponType::Rocket },
    ];
    launching_system(&mut world, &launches);
    assert_eq!(world.weapons.len(), 0);
}

#[test]
fn rotation_skips_eliminated_players() {
    let (mut game, _) = Game::new_standard();
    // Eliminate the first player entirely.
    game.world.destroy_base(0);
    game.world.destroy_base(2);
    let mut order = PlayerOrder { order: vec![0, 1], current: 0 };
    for _ in 0..4 {
        let b = next_turn(&mut order, &mut game.world).unwrap();
        // Only the second player's bases are ever selected.
        assert!(b == 1 || b == 3);
        assert_eq!(game.world.bases[b].player, 1);
        assert!(game.world.bases[b].alive);
    }
    let (owners, first) = victory_check(&game.world);
    assert_eq!(owners, 1);
    assert_eq!(first, Some(1));
}

#[test]
fn turn_rotation_alternates_between_two_living_players() {
    let (mut game, _) = Game::new_standard();
    let mut order = PlayerOrder { order: vec![0, 1], current: 0 };
    let b = next_turn(&mut order, &mut game.world).unwrap();
    assert_eq!(game.world.bases[b].player, 1);
    let b = next_turn(&mut order, &mut game.world).unwrap();
    assert_eq!(game.world.bases[b].player, 0);
    let b = next_turn(&mut order, &mut game.world).unwrap();
    assert_eq!(game.world.bases[b].player, 1);
}

#[test]
fn standard_game_layout() {
    let (game, events) = Game::new_standard();
    assert_eq!(game.world.asteroids.len(), 3);
    assert_eq!(game.world.bases.len(), 4);
    assert_eq!(game.world.players.len(), 2);
    assert_eq!(game.world.players[0].bases, vec![0, 2]);
    assert_eq!(game.world.players[1].bases, vec![1, 3]);
    assert_eq!(game.turn.active_base, Some(0));
    assert!(game.world.bases[0].active);
    assert!(!game.world.bases[1].active);
    assert_eq!(events, vec![Event::TurnStart { base: 0 }]);
}

#[test]
fn destroying_the_last_enemy_bases_ends_the_game_exactly_once() {
    // A planted rocket detonates beside the first player's two weakened
    // bases; both fall, the victory check fires once, and the game halts.
    let mut world = World::new();
    world.setup_players();
    let a0 = world.add_asteroid(0, 0);
    let a1 = world.add_asteroid(500_000, 500_000);
    let b0 = world.add_base(a0, 0, 0);
    let b1 = world.add_base(a0, 0, 200);
    let _b2 = world.add_base(a1, 1, 0);
    let _b3 = world.add_base(a1, 1, 1_000);
    world.bases[b0].health = 1_000;
    world.bases[b1].health = 1_000;
    world.weapons.push(Weapon {
        thrust: Vec2::new(0, 0),
        fuel: 5_000,
        size: Vec2::new(12_000, 36_000),
        pos: Vec2::new(0, 31_000),
        rot: Rot { c: 1000, s: 0 },
        active: true,
    });
    let mut turn = TurnState::new();
    turn.turn_start(b0);
    let order = PlayerOrder { order: vec![0, 1], current: 0 };
    let mut game = Game { world, turn, order, over: false, winner: None };
    let events = game.tick(TickInput { aim_delta: 0, power_delta: 0, fire: false }, 20);
    let game_overs: Vec<&Event> = events
        .iter()
        .filter(|e| matches!(e, Event::GameOver { .. }))
        .collect();
    assert_eq!(game_overs.len(), 1);
    assert!(matches!(events.last(), Some(Event::GameOver { winner: Some(1) })));
    assert!(game.over);
    assert_eq!(game.winner, Some(1));
    assert!(events.contains(&Event::BaseDestroyed { base: b0 }));
    assert!(events.contains(&Event::BaseDestroyed { base: b1 }));
    assert!(events.contains(&Event::TurnEnd));
    // A finished game ignores every further tick.
    let later = game.tick(TickInput { aim_delta: 0, power_delta: 0, fire: true }, 20);
    assert!(later.is_empty());
}

#[test]
fn fuel_exhaustion_is_a_dud_that_ends_the_turn() {
    let mut world = World::new();
    world.setup_players();
    let a0 = world.add_asteroid(0, -500_000);
    let a1 = world.add_asteroid(500_000, 500_000);
    let b0 = world.add_base(a0, 0, 0);
    let _b1 = world.add_base(a0, 1, 1_000);
    let _b2 = world.add_base(a1, 0, 0);
    let _b3 = world.add_base(a1, 1, 1_000);
    // A rocket far from everything, with almost no fuel left.
    world.weapons.push(Weapon {
        thrust: Vec2::new(0, 10_000),
        fuel: 10,
        size: Vec2::new(12_000, 36_000),
        pos: Vec2::new(-400_000, 400_000),
        rot: Rot { c: 1000, s: 0 },
        active: true,
    });
    let mut turn = TurnState::new();
    turn.turn_start(b0);
    turn.fire_request();
    let order = PlayerOrder { order: vec![0, 1], current: 0 };
    let mut game = Game { world, turn, order, over: false, winner: None };
    let events = game.tick(TickInput { aim_delta: 0, power_delta: 0, fire: false }, 20);
    // The dud ends the turn without an explosion, and the next turn starts.
    assert!(events.contains(&Event::TurnEnd));
    assert!(!events.iter().any(|e| matches!(e, Event::Exploded { .. })));
    assert!(matches!(events.last(), Some(Event::TurnStart { .. })));
    assert_eq!(game.world.weapons.len(), 0);
    assert_eq!(game.turn.phase, TurnPhase::Aiming);
    assert_eq!(game.turn.power, POWER_DEFAULT);
}

#[test]
fn firing_through_the_game_spawns_one_rocket() {
    let (mut game, _) = Game::new_standard();
    let events = game.tick(TickInput { aim_delta: 0, power_delta: 0, fire: true }, 20);
    assert_eq!(game.world.weapons.len(), 1);
    assert!(game.world.weapons[0].active);
    assert_eq!(game.turn.phase, TurnPhase::Firing);
    assert!(!events.iter().any(|e| matches!(e, Event::GameOver { .. })));
    // A second fire request while the shot flies spawns nothing.
    game.tick(TickInput { aim_delta: 0, power_delta: 0, fire: true }, 20);
    assert_eq!(game.world.weapons.len(), 1);
}

#[test]
fn rotation_reports_nothing_when_no_player_owns_a_base() {
    let (mut game, _) = Game::new_standard();
    for b in 0..4 {
        game.world.destroy_base(b);
    }
    let mut order = PlayerOrder { order: vec![0, 1], current: 0 };
    let before = order.current;
    assert!(next_turn(&mut order, &mut game.world).is_none());
    assert_eq!(order.current, before);
    let (owners, first) = victory_check(&game.world);
    assert_eq!(owners, 0);
    assert_eq!(first, None);
}

#[test]
fn negative_health_shows_as_zero_percent() {
    let mut world = World::new();
    world.setup_players();
    let a = world.add_asteroid(0, 0);
    let b = world.add_base(a, 0, 0);
    world.bases[b].health = -5_000;
    assert_eq!(world.health_percent_milli(b), 0);
}
