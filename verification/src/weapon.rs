//! Projectiles ("weapons") and their per-tick simulation.
//!
//! A weapon flies under gravity until its fuel runs out or it hits an
//! asteroid.  A turn-consuming weapon ends the turn when it resolves and
//! detonates on impact; a tracer is a cosmetic preview projectile that is
//! removed silently.

use vstd::prelude::*;

use crate::consts::{MAX_BOX_SIZE, MAX_COORD, SCALE, UNIT, MAX_DT_MS, MAX_ASTEROIDS,
    MAX_PROJECTILES, EXPLODE_POWER, POWER_MAX, PI_MRAD, SLEW_NUM, SLEW_DEN};
use crate::fxp::{fdiv, sclamp, isqrt, is_isqrt, div_trunc, lemma_isqrt};
use crate::vec2::{Vec2, Rot, srot_mul, snorm_sq, ssin, scos};
use crate::geom::{OrientedBox, Circle, sbox_circle_collides};
use crate::entities::World;
use crate::events::Event;
use crate::sim::{sstep, step_kinematics};

verus! {

/// The closed set of weapon kinds.
#[derive(Clone, Copy, PartialEq, Eq, Structural, Debug)]
pub enum WeaponType {
    /// The primary turn-consuming projectile.
    Rocket,
    /// A non-colliding aim-preview projectile.
    Tracer,
}

/// A live projectile.
#[derive(Clone, Copy, PartialEq, Eq, Structural, Debug)]
pub struct Weapon {
    /// Velocity, milli-units per second; gravity accumulates into it.
    pub thrust: Vec2,
    /// Remaining flight time, milliseconds.
    pub fuel: i64,
    /// Bounding-box edge lengths, milli-units.
    pub size: Vec2,
    /// Position, milli-units.
    pub pos: Vec2,
    /// Orientation; slews toward the thrust direction in flight.
    pub rot: Rot,
    /// Whether resolving this weapon ends the turn (turn-consuming).
    pub active: bool,
}

/// A request to launch a weapon from a base.
#[derive(Clone, Copy, PartialEq, Eq, Structural, Debug)]
pub struct Launch {
    /// Firing angle relative to the base's outward direction, milli-radians.
    pub angle: i64,
    /// Spawn offset along the firing direction, milli-units.
    pub offset: i64,
    /// Launch speed, milli-units per second.
    pub thrust: i64,
    /// The base to fire from.
    pub parent: usize,
    pub weapon_type: WeaponType,
}

impl WeaponType {
    /// Bounding-box size of the weapon kind, milli-units.
    pub fn size(&self) -> (s: Vec2)
        ensures
            *self == WeaponType::Rocket ==> s == (Vec2 { x: 12_000, y: 36_000 }),
            *self == WeaponType::Tracer ==> s == (Vec2 { x: 6_000, y: 6_000 }),
            0 <= s.x <= MAX_BOX_SIZE && 0 <= s.y <= MAX_BOX_SIZE,
    {
        match *self {
            WeaponType::Rocket => Vec2 { x: 12_000, y: 36_000 },
            WeaponType::Tracer => Vec2 { x: 6_000, y: 6_000 },
        }
    }

    /// Flight time of the weapon kind, milliseconds.
    pub fn fuel(&self) -> (f: i64)
        ensures
            *self == WeaponType::Rocket ==> f == 10_000,
            *self == WeaponType::Tracer ==> f == 1_200,
            0 <= f <= 100_000,
    {
        match *self {
            WeaponType::Rocket => 10_000,
            WeaponType::Tracer => 1_200,
        }
    }

    /// Whether a weapon of this kind consumes the turn when it resolves.
    pub fn turn_consuming(&self) -> (b: bool)
        ensures
            b == (*self == WeaponType::Rocket),
    {
        match *self {
            WeaponType::Rocket => true,
            WeaponType::Tracer => false,
        }
    }
}

impl Weapon {
    /// Field-only well-formedness of a weapon record.
    pub open spec fn wf(self) -> bool {
        self.pos.in_bounds() && self.thrust.in_bounds() && self.rot.loosely_bounded() && 0
            <= self.size.x <= MAX_BOX_SIZE && 0 <= self.size.y <= MAX_BOX_SIZE && -100_000_000
            <= self.fuel <= 100_000_000
    }

    /// The weapon's bounding box at its current position and orientation.
    pub fn bound(&self) -> (b: OrientedBox)
        requires
            self.wf(),
        ensures
            b.centre == self.pos,
            b.size == self.size,
            b.rot == self.rot,
            b.wf(),
    {
        OrientedBox { centre: self.pos, size: self.size, rot: self.rot }
    }
}

impl Launch {
    /// Ranges the turn machine's clamps guarantee for every launch it
    /// emits.
    pub open spec fn wf(self) -> bool {
        -PI_MRAD <= self.angle <= PI_MRAD && 0 <= self.offset <= 100_000 && 0 <= self.thrust
            <= POWER_MAX
    }
}

/// Orientation after one tick: the rotation's cosine/sine pair moves a
/// fixed 3/10 of the way toward the thrust direction, frozen while the
/// thrust magnitude is within one unit.
pub open spec fn sslew(c: int, s: int, tx: int, ty: int) -> (int, int) {
    let n2 = snorm_sq(tx, ty);
    if n2 <= UNIT * UNIT {
        (c, s)
    } else {
        let mag = isqrt(n2);
        let tc = fdiv(ty * SCALE, mag);
        let ts = -fdiv(tx * SCALE, mag);
        (
            c + fdiv(SLEW_NUM * (tc - c), SLEW_DEN as int),
            s + fdiv(SLEW_NUM * (ts - s), SLEW_DEN as int),
        )
    }
}

/// The weapon spawned by a launch from `b`: the base's orientation
/// composed with the firing angle gives the direction; position offsets
/// along it and thrust scales it; size and fuel come from the weapon kind.
pub open spec fn slaunch_weapon(b: crate::entities::Base, l: Launch) -> Weapon {
    let rm = srot_mul(b.rot.c as int, b.rot.s as int, scos(l.angle as int), ssin(l.angle as int));
    let dx = -rm.1;
    let dy = rm.0;
    Weapon {
        thrust: Vec2 {
            x: fdiv(dx * l.thrust, SCALE as int) as i64,
            y: fdiv(dy * l.thrust, SCALE as int) as i64,
        },
        fuel: if l.weapon_type == WeaponType::Rocket {
            10_000
        } else {
            1_200
        },
        size: if l.weapon_type == WeaponType::Rocket {
            Vec2 { x: 12_000, y: 36_000 }
        } else {
            Vec2 { x: 6_000, y: 6_000 }
        },
        pos: Vec2 {
            x: sclamp(
                b.pos.x + fdiv(dx * l.offset, SCALE as int),
                -MAX_COORD as int,
                MAX_COORD as int,
            ) as i64,
            y: sclamp(
                b.pos.y + fdiv(dy * l.offset, SCALE as int),
                -MAX_COORD as int,
                MAX_COORD as int,
            ) as i64,
        },
        rot: Rot { c: rm.0 as i64, s: rm.1 as i64 },
        active: l.weapon_type == WeaponType::Rocket,
    }
}

/// The weapon arena after spawning the first `n` launches: each valid
/// launch (live parent base, room in the arena) appends its weapon.
pub open spec fn sspawn_all(
    bases: Seq<crate::entities::Base>,
    ws: Seq<Weapon>,
    ls: Seq<Launch>,
    n: int,
) -> Seq<Weapon>
    decreases n,
{
    if n <= 0 {
        ws
    } else {
        let pre = sspawn_all(bases, ws, ls, n - 1);
        let l = ls[n - 1];
        if l.parent < bases.len() && bases[l.parent as int].alive && pre.len()
            < MAX_PROJECTILES {
            pre.push(slaunch_weapon(bases[l.parent as int], l))
        } else {
            pre
        }
    }
}

/// Build the weapon a launch request describes, from its parent base.
pub fn launch_weapon(b: &crate::entities::Base, l: &Launch) -> (w: Weapon)
    requires
        b.wf(),
        l.wf(),
    ensures
        w == slaunch_weapon(*b, *l),
        w.wf(),
{
    let aim = Rot::from_mrad(l.angle);
    let rm = b.rot.mul(aim);
    let dir = Vec2 { x: -rm.s, y: rm.c };
    let thrust = dir.scale_div(l.thrust, SCALE);
    let off = dir.scale_div(l.offset, SCALE);
    let pos = b.pos.add_clamped(off);
    proof {
        crate::fxp::lemma_mul_abs_bound(dir.x as int, l.thrust as int, 2_000, 200_000);
        crate::fxp::lemma_mul_abs_bound(dir.y as int, l.thrust as int, 2_000, 200_000);
        crate::fxp::lemma_fdiv_magnitude(dir.x as int * l.thrust as int, SCALE as int, 400_000);
        crate::fxp::lemma_fdiv_magnitude(dir.y as int * l.thrust as int, SCALE as int, 400_000);
    }
    let (size, fuel, active) = match l.weapon_type {
        WeaponType::Rocket => (Vec2 { x: 12_000, y: 36_000 }, 10_000i64, true),
        WeaponType::Tracer => (Vec2 { x: 6_000, y: 6_000 }, 1_200i64, false),
    };
    Weapon { thrust, fuel, size, pos, rot: rm, active }
}

/// Spawn a weapon for every valid launch request: requests naming a base
/// that no longer exists are dropped, as is anything past the arena's
/// capacity.
pub fn launching_system(world: &mut World, launches: &Vec<Launch>)
    requires
        old(world).wf(),
        forall|i: int| 0 <= i < launches@.len() ==> (#[trigger] launches@[i]).wf(),
    ensures
        final(world).wf(),
        final(world).weapons@ == sspawn_all(
            old(world).bases@,
            old(world).weapons@,
            launches@,
            launches@.len() as int,
        ),
        final(world).asteroids == old(world).asteroids,
        final(world).bases == old(world).bases,
        final(world).players == old(world).players,
{
    let n = launches.len();
    let mut i: usize = 0;
    while i < n
        invariant
            world.wf(),
            n == launches@.len(),
            i <= n,
            forall|j: int| 0 <= j < n ==> (#[trigger] launches@[j]).wf(),
            world.weapons@ == sspawn_all(
                old(world).bases@,
                old(world).weapons@,
                launches@,
                i as int,
            ),
            world.asteroids == old(world).asteroids,
            world.bases == old(world).bases,
            world.players == old(world).players,
        decreases n - i,
    {
        let l = launches[i];
        if l.parent < world.bases.len() {
            let b = world.bases[l.parent];
            if b.alive && world.weapons.len() < MAX_PROJECTILES {
                let w = launch_weapon(&b, &l);
                world.weapons.push(w);
            }
        }
        i = i + 1;
    }
}

/// The weapon after one fuel tick.
pub open spec fn sfuel_one(w: Weapon, dt: int) -> Weapon {
    Weapon { fuel: (w.fuel - dt) as i64, ..w }
}

/// Weapons surviving a fuel tick of `dt` over the first `n` slots:
/// whoever still has non-negative fuel, decremented.
pub open spec fn sfuel_kept(ws: Seq<Weapon>, dt: int, n: int) -> Seq<Weapon>
    decreases n,
{
    if n <= 0 {
        Seq::empty()
    } else {
        let pre = sfuel_kept(ws, dt, n - 1);
        if ws[n - 1].fuel - dt >= 0 {
            pre.push(sfuel_one(ws[n - 1], dt))
        } else {
            pre
        }
    }
}

/// Turn-end events of a fuel tick: one per expiring turn-consuming
/// weapon, in slot order (a dud: the turn ends without an explosion).
pub open spec fn sfuel_events(ws: Seq<Weapon>, dt: int, n: int) -> Seq<Event>
    decreases n,
{
    if n <= 0 {
        Seq::empty()
    } else {
        let pre = sfuel_events(ws, dt, n - 1);
        if ws[n - 1].fuel - dt < 0 && ws[n - 1].active {
            pre.push(Event::TurnEnd)
        } else {
            pre
        }
    }
}

/// Count down every weapon's fuel by the elapsed time and remove the
/// exhausted ones; an expiring turn-consuming weapon ends the turn.
pub fn weapon_fuel_update(world: &mut World, dt: i64) -> (events: Vec<Event>)
    requires
        old(world).wf(),
        0 <= dt <= MAX_DT_MS,
    ensures
        final(world).wf(),
        final(world).weapons@ == sfuel_kept(
            old(world).weapons@,
            dt as int,
            old(world).weapons@.len() as int,
        ),
        events@ == sfuel_events(old(world).weapons@, dt as int, old(world).weapons@.len() as int),
        final(world).asteroids == old(world).asteroids,
        final(world).bases == old(world).bases,
        final(world).players == old(world).players,
{
    let mut kept: Vec<Weapon> = Vec::new();
    let mut events: Vec<Event> = Vec::new();
    let n = world.weapons.len();
    let mut i: usize = 0;
    while i < n
        invariant
            world.wf(),
            n == world.weapons@.len(),
            i <= n,
            0 <= dt <= MAX_DT_MS,
            kept@ == sfuel_kept(world.weapons@, dt as int, i as int),
            events@ == sfuel_events(world.weapons@, dt as int, i as int),
            kept@.len() <= i,
            forall|j: int| 0 <= j < kept@.len() ==> (#[trigger] kept@[j]).wf(),
        decreases n - i,
    {
        let w = world.weapons[i];
        let nf = w.fuel - dt;
        if nf >= 0 {
            kept.push(Weapon { fuel: nf, ..w });
        } else {
            if w.active {
                events.push(Event::TurnEnd);
            }
        }
        i = i + 1;
    }
    world.weapons = kept;
    events
}

/// The weapon after one kinematic tick: position and thrust follow
/// [`sstep`], the orientation slews toward the new thrust.
pub open spec fn smove_one(asts: Seq<Circle>, w: Weapon, dt: int) -> Weapon {
    let st = sstep(asts, w.pos.x as int, w.pos.y as int, w.thrust.x as int, w.thrust.y as int, dt);
    let ro = sslew(w.rot.c as int, w.rot.s as int, st.2, st.3);
    Weapon {
        pos: Vec2 { x: st.0 as i64, y: st.1 as i64 },
        thrust: Vec2 { x: st.2 as i64, y: st.3 as i64 },
        rot: Rot { c: ro.0 as i64, s: ro.1 as i64 },
        ..w
    }
}

/// The whole arena after one kinematic tick.
pub open spec fn smove_all(asts: Seq<Circle>, ws: Seq<Weapon>, dt: int) -> Seq<Weapon> {
    Seq::new(ws.len(), |i: int| smove_one(asts, ws[i], dt))
}

/// Advance every live weapon one tick of `dt` under the gravity of the
/// given asteroid field.
pub fn weapon_move_update(world: &mut World, circles: &Vec<Circle>, dt: i64)
    requires
        old(world).wf(),
        forall|i: int| 0 <= i < circles@.len() ==> (#[trigger] circles@[i]).wf(),
        circles@.len() <= MAX_ASTEROIDS,
        0 <= dt <= MAX_DT_MS,
    ensures
        final(world).wf(),
        final(world).weapons@.len() == old(world).weapons@.len(),
        forall|i: int|
            0 <= i < final(world).weapons@.len() ==> #[trigger] final(world).weapons@[i]
                == smove_one(circles@, old(world).weapons@[i], dt as int),
        final(world).weapons@ == smove_all(circles@, old(world).weapons@, dt as int),
        final(world).asteroids == old(world).asteroids,
        final(world).bases == old(world).bases,
        final(world).players == old(world).players,
{
    let n = world.weapons.len();
    let mut i: usize = 0;
    while i < n
        invariant
            world.wf(),
            n == world.weapons@.len() == old(world).weapons@.len(),
            i <= n,
            forall|j: int| 0 <= j < circles@.len() ==> (#[trigger] circles@[j]).wf(),
            circles@.len() <= MAX_ASTEROIDS,
            0 <= dt <= MAX_DT_MS,
            forall|j: int| i <= j < n ==> world.weapons@[j] == old(world).weapons@[j],
            forall|j: int|
                0 <= j < i ==> #[trigger] world.weapons@[j] == smove_one(
                    circles@,
                    old(world).weapons@[j],
                    dt as int,
                ),
            world.asteroids == old(world).asteroids,
            world.bases == old(world).bases,
            world.players == old(world).players,
        decreases n - i,
    {
        let w = world.weapons[i];
        let (pos, thrust) = step_kinematics(circles, w.pos, w.thrust, dt);
        let rot = slew(w.rot, thrust);
        let wm = vstd::std_specs::vec::vec_index_mut(&mut world.weapons, i);
        wm.pos = pos;
        wm.thrust = thrust;
        wm.rot = rot;
        i = i + 1;
    }
    proof {
        assert(world.weapons@ =~= smove_all(circles@, old(world).weapons@, dt as int));
    }
}

/// Slew an orientation toward the thrust direction, the executable form
/// of [`sslew`].
fn slew(rot: Rot, thrust: Vec2) -> (r: Rot)
    requires
        rot.loosely_bounded(),
        thrust.in_bounds(),
    ensures
        (r.c as int, r.s as int) == sslew(rot.c as int, rot.s as int, thrust.x as int,
            thrust.y as int),
        r.loosely_bounded(),
{
    let n2 = thrust.dist_sq(Vec2 { x: 0, y: 0 });
    proof {
        assert(n2 as int == snorm_sq(thrust.x as int, thrust.y as int));
        assert((UNIT as int) * (UNIT as int) == 1_000_000) by (nonlinear_arith)
            requires UNIT as int == 1_000;
    }
    if n2 <= 1_000_000 {
        rot
    } else {
        let mag = crate::fxp::isqrt_u128(n2 as u128) as i128;
        proof {
            lemma_isqrt(n2 as int);
            let m = isqrt(n2 as int);
            assert(m >= 1) by {
                if m == 0 {
                    assert((m + 1) * (m + 1) == 1) by (nonlinear_arith)
                        requires m == 0;
                }
            }
            assert(m <= 3_000_000_000) by {
                if m > 3_000_000_000 {
                    assert(3_000_000_000 * 3_000_000_000 < m * m) by (nonlinear_arith)
                        requires m > 3_000_000_000;
                }
            }
            assert(-m <= thrust.x as int <= m && -m <= thrust.y as int <= m) by (nonlinear_arith)
                requires
                    is_isqrt(snorm_sq(thrust.x as int, thrust.y as int), m),
                    snorm_sq(thrust.x as int, thrust.y as int) == thrust.x as int * thrust.x as int
                        + thrust.y as int * thrust.y as int,
            ;
            crate::fxp::lemma_mul_abs_bound(thrust.y as int, SCALE as int, m, 1_000);
            crate::fxp::lemma_mul_abs_bound(thrust.x as int, SCALE as int, m, 1_000);
            assert(m * 1_000 == 1_000 * m) by (nonlinear_arith);
            crate::fxp::lemma_fdiv_magnitude(thrust.y as int * SCALE as int, m, 1_000);
            crate::fxp::lemma_fdiv_magnitude(thrust.x as int * SCALE as int, m, 1_000);
        }
        let tc = div_trunc(thrust.y as i128 * SCALE as i128, mag) as i64;
        let ts = -(div_trunc(thrust.x as i128 * SCALE as i128, mag) as i64);
        let c = slew_component(rot.c, tc);
        let s = slew_component(rot.s, ts);
        Rot { c, s }
    }
}

/// One component of the orientation interpolation: move 3/10 of the way
/// from `c` toward `t`, truncating toward zero.
fn slew_component(c: i64, t: i64) -> (r: i64)
    requires
        -2 * SCALE <= c <= 2 * SCALE,
        -SCALE <= t <= SCALE,
    ensures
        r as int == c + fdiv(SLEW_NUM * (t - c), SLEW_DEN as int),
        -2 * SCALE <= r <= 2 * SCALE,
{
    let d = t - c;
    let e = div_trunc(SLEW_NUM as i128 * d as i128, SLEW_DEN as i128) as i64;
    proof {
        let di = d as int;
        if di >= 0 {
            crate::fxp::lemma_fdiv_within(SLEW_NUM as int * di, SLEW_DEN as int);
            vstd::arithmetic::div_mod::lemma_div_is_ordered(3 * di, 10 * di, 10);
            vstd::arithmetic::div_mod::lemma_div_by_multiple(di, 10);
            assert(3 * di == SLEW_NUM as int * di && 10 * di == di * 10) by (nonlinear_arith)
                requires SLEW_NUM as int == 3;
        } else {
            crate::fxp::lemma_fdiv_within(SLEW_NUM as int * di, SLEW_DEN as int);
            vstd::arithmetic::div_mod::lemma_div_is_ordered(3 * (-di), 10 * (-di), 10);
            vstd::arithmetic::div_mod::lemma_div_by_multiple(-di, 10);
            assert(3 * (-di) == -(SLEW_NUM as int * di) && 10 * (-di) == (-di) * 10)
                by (nonlinear_arith)
                requires SLEW_NUM as int == 3;
        }
    }
    c + e
}

/// Whether the weapon's bounding box touches any live asteroid.
pub open spec fn shit(asts: Seq<Circle>, w: Weapon) -> bool {
    exists|j: int|
        0 <= j < asts.len() && sbox_circle_collides(
            w.pos.x as int,
            w.pos.y as int,
            w.size.x as int,
            w.size.y as int,
            w.rot.c as int,
            w.rot.s as int,
            asts[j].centre.x as int,
            asts[j].centre.y as int,
            asts[j].radius as int,
        )
}

/// Weapons among the first `n` that hit nothing this tick.
pub open spec fn scollide_kept(asts: Seq<Circle>, ws: Seq<Weapon>, n: int) -> Seq<Weapon>
    decreases n,
{
    if n <= 0 {
        Seq::empty()
    } else {
        let pre = scollide_kept(asts, ws, n - 1);
        if shit(asts, ws[n - 1]) {
            pre
        } else {
            pre.push(ws[n - 1])
        }
    }
}

/// Events of the collision pass: each hit turn-consuming weapon ends the
/// turn and detonates at its position with the fixed blast power; hit
/// tracers vanish silently.
pub open spec fn scollide_events(asts: Seq<Circle>, ws: Seq<Weapon>, n: int) -> Seq<Event>
    decreases n,
{
    if n <= 0 {
        Seq::empty()
    } else {
        let pre = scollide_events(asts, ws, n - 1);
        if shit(asts, ws[n - 1]) && ws[n - 1].active {
            pre.push(Event::TurnEnd).push(
                Event::Exploded { pos: ws[n - 1].pos, power: EXPLODE_POWER },
            )
        } else {
            pre
        }
    }
}

/// Test every weapon against every live asteroid and resolve the hits:
/// the weapon is removed, and a turn-consuming one ends the turn and
/// detonates.
pub fn weapon_collide_update(world: &mut World, circles: &Vec<Circle>) -> (events: Vec<Event>)
    requires
        old(world).wf(),
        forall|i: int| 0 <= i < circles@.len() ==> (#[trigger] circles@[i]).wf(),
    ensures
        final(world).wf(),
        final(world).weapons@ == scollide_kept(
            circles@,
            old(world).weapons@,
            old(world).weapons@.len() as int,
        ),
        events@ == scollide_events(
            circles@,
            old(world).weapons@,
            old(world).weapons@.len() as int,
        ),
        final(world).asteroids == old(world).asteroids,
        final(world).bases == old(world).bases,
        final(world).players == old(world).players,
{
    let mut kept: Vec<Weapon> = Vec::new();
    let mut events: Vec<Event> = Vec::new();
    let n = world.weapons.len();
    let mut i: usize = 0;
    while i < n
        invariant
            world.wf(),
            n == world.weapons@.len(),
            i <= n,
            forall|j: int| 0 <= j < circles@.len() ==> (#[trigger] circles@[j]).wf(),
            kept@ == scollide_kept(circles@, world.weapons@, i as int),
            events@ == scollide_events(circles@, world.weapons@, i as int),
            kept@.len() <= i,
            forall|j: int| 0 <= j < kept@.len() ==> (#[trigger] kept@[j]).wf(),
        decreases n - i,
    {
        let w = world.weapons[i];
        let hit = weapon_hits_any(&w, circles);
        if hit {
            if w.active {
                events.push(Event::TurnEnd);
                events.push(Event::Exploded { pos: w.pos, power: EXPLODE_POWER });
            }
        } else {
            kept.push(w);
        }
        i = i + 1;
    }
    world.weapons = kept;
    events
}

/// Whether a turn-consuming weapon is in flight.
pub open spec fn shas_active(ws: Seq<Weapon>) -> bool {
    exists|i: int| 0 <= i < ws.len() && (#[trigger] ws[i]).active
}

/// Whether a turn-consuming weapon is in flight, the executable form of
/// [`shas_active`].
pub fn any_active_weapon(world: &World) -> (r: bool)
    ensures
        r == shas_active(world.weapons@),
{
    let n = world.weapons.len();
    let mut i: usize = 0;
    while i < n
        invariant
            n == world.weapons@.len(),
            i <= n,
            forall|j: int| 0 <= j < i ==> !(#[trigger] world.weapons@[j]).active,
        decreases n - i,
    {
        if world.weapons[i].active {
            return true;
        }
        i = i + 1;
    }
    false
}

/// Whether the weapon's box touches any of the given circles, the
/// executable form of [`shit`].
fn weapon_hits_any(w: &Weapon, circles: &Vec<Circle>) -> (hit: bool)
    requires
        w.wf(),
        forall|i: int| 0 <= i < circles@.len() ==> (#[trigger] circles@[i]).wf(),
    ensures
        hit == shit(circles@, *w),
{
    let bx = w.bound();
    let n = circles.len();
    let mut i: usize = 0;
    while i < n
        invariant
            n == circles@.len(),
            i <= n,
            w.wf(),
            bx == (OrientedBox { centre: w.pos, size: w.size, rot: w.rot }),
            forall|j: int| 0 <= j < circles@.len() ==> (#[trigger] circles@[j]).wf(),
            forall|j: int|
                0 <= j < i ==> !sbox_circle_collides(
                    w.pos.x as int,
                    w.pos.y as int,
                    w.size.x as int,
                    w.size.y as int,
                    w.rot.c as int,
                    w.rot.s as int,
                    (#[trigger] circles@[j]).centre.x as int,
                    circles@[j].centre.y as int,
                    circles@[j].radius as int,
                ),
        decreases n - i,
    {
        let c = circles[i];
        if bx.collide(&c) {
            return true;
        }
        i = i + 1;
    }
    false
}

} // verus!
