//! Damage and destruction resolution.
//!
//! An explosion damages every base and asteroid whose effective distance —
//! the centre distance corrected for the entity's own shell, floored at
//! one unit — lies within the blast radius, with linear falloff: full
//! power at the surface, zero at the blast radius.  All explosions of one
//! tick are applied against the pre-explosion state, so no order-dependent
//! chaining occurs within a tick.  A base below zero health is destroyed;
//! an asteroid that would shrink below the minimum radius is destroyed
//! instead, destroying every base still attached to it first.

use vstd::prelude::*;

use crate::consts::{UNIT, MAX_BLAST_RADIUS, BASE_SHELL, MIN_RADIUS, MAX_RADIUS};
use crate::fxp::{fdiv, isqrt, div_trunc};
use crate::vec2::{Vec2, sdist_sq};
use crate::entities::{World, Base, Asteroid, sbase_pos, splayer_same_but_bases};
use crate::events::{Explode, Event};

verus! {

/// Ranges of a well-formed explosion record.
pub open spec fn sexplode_wf(e: Explode) -> bool {
    e.pos.in_bounds() && 0 <= e.power <= 1_000_000
}

/// Effective distance of an explosion: centre distance minus the target's
/// shell correction, floored at one unit.
pub open spec fn sshell_dist(d: int, shell: int) -> int {
    vstd::math::max(UNIT as int, d - shell)
}

/// Damage dealt at effective distance `dist`: linear falloff from full
/// `power` at the surface to zero at the blast radius.
pub open spec fn sdamage(power: int, dist: int) -> int {
    if dist < MAX_BLAST_RADIUS {
        fdiv(power * (MAX_BLAST_RADIUS - dist), MAX_BLAST_RADIUS as int)
    } else {
        0
    }
}

/// Damage one explosion deals to a target centred at `(tx, ty)` whose
/// shell correction is `shell`.
pub open spec fn sexplosion_damage(tx: int, ty: int, shell: int, e: Explode) -> int {
    sdamage(e.power as int, sshell_dist(isqrt(sdist_sq(tx, ty, e.pos.x as int, e.pos.y as int)),
        shell))
}

/// Total damage the first `n` explosions deal to that target.
pub open spec fn stotal_damage(tx: int, ty: int, shell: int, evs: Seq<Explode>, n: int) -> int
    decreases n,
{
    if n <= 0 {
        0
    } else {
        stotal_damage(tx, ty, shell, evs, n - 1) + sexplosion_damage(tx, ty, shell, evs[n - 1])
    }
}

/// A base's record after the damage pass: health drops by the total
/// damage; below zero the base is destroyed.
pub open spec fn sbase_after(bases: Seq<Base>, evs: Seq<Explode>, i: int) -> Base {
    let b = bases[i];
    if b.alive {
        let nh = b.health - stotal_damage(
            b.pos.x as int,
            b.pos.y as int,
            BASE_SHELL as int,
            evs,
            evs.len() as int,
        );
        if nh < 0 {
            Base { health: nh as i64, alive: false, ..b }
        } else {
            Base { health: nh as i64, ..b }
        }
    } else {
        b
    }
}

/// Whether the damage pass destroys base `i`.
pub open spec fn sbase_destroyed(bases: Seq<Base>, evs: Seq<Explode>, i: int) -> bool {
    bases[i].alive && bases[i].health - stotal_damage(
        bases[i].pos.x as int,
        bases[i].pos.y as int,
        BASE_SHELL as int,
        evs,
        evs.len() as int,
    ) < 0
}

/// A player's owned-base list after the pass: every destroyed base among
/// the first `n` struck out, in slot order.
pub open spec fn sprune_bases(
    list: Seq<usize>,
    bases: Seq<Base>,
    evs: Seq<Explode>,
    n: int,
) -> Seq<usize>
    decreases n,
{
    if n <= 0 {
        list
    } else {
        let pre = sprune_bases(list, bases, evs, n - 1);
        if sbase_destroyed(bases, evs, n - 1) {
            pre.remove_value((n - 1) as usize)
        } else {
            pre
        }
    }
}

/// Destruction events of the base damage pass, in slot order.
pub open spec fn sbase_destroy_events(bases: Seq<Base>, evs: Seq<Explode>, n: int) -> Seq<Event>
    decreases n,
{
    if n <= 0 {
        Seq::empty()
    } else {
        let pre = sbase_destroy_events(bases, evs, n - 1);
        if sbase_destroyed(bases, evs, n - 1) {
            pre.push(Event::BaseDestroyed { base: (n - 1) as usize })
        } else {
            pre
        }
    }
}

/// All base records after the base damage pass.
pub open spec fn sbases_after_all(bases: Seq<Base>, evs: Seq<Explode>) -> Seq<Base> {
    Seq::new(bases.len(), |i: int| sbase_after(bases, evs, i))
}

/// One explosion's damage is between zero and its full power.
pub proof fn lemma_sexplosion_damage_bounds(tx: int, ty: int, shell: int, e: Explode)
    requires
        sexplode_wf(e),
    ensures
        0 <= sexplosion_damage(tx, ty, shell, e) <= e.power,
{
    let d2 = sdist_sq(tx, ty, e.pos.x as int, e.pos.y as int);
    crate::fxp::lemma_square_nonneg(tx - e.pos.x as int);
    crate::fxp::lemma_square_nonneg(ty - e.pos.y as int);
    crate::fxp::lemma_isqrt(d2);
    let dist = sshell_dist(isqrt(d2), shell);
    if dist < MAX_BLAST_RADIUS {
        crate::fxp::lemma_mul_abs_bound(e.power as int, MAX_BLAST_RADIUS as int - dist,
            e.power as int, MAX_BLAST_RADIUS as int);
        crate::fxp::lemma_fdiv_magnitude(e.power as int * (MAX_BLAST_RADIUS as int - dist),
            MAX_BLAST_RADIUS as int, e.power as int);
        assert(e.power as int * (MAX_BLAST_RADIUS as int - dist) >= 0) by (nonlinear_arith)
            requires
                e.power >= 0,
                MAX_BLAST_RADIUS as int - dist >= 0,
        ;
        vstd::arithmetic::div_mod::lemma_div_pos_is_pos(
            e.power as int * (MAX_BLAST_RADIUS as int - dist),
            MAX_BLAST_RADIUS as int,
        );
    }
}

/// The total damage of at most a thousand explosions stays within bounds.
pub proof fn lemma_stotal_damage_bounds(tx: int, ty: int, shell: int, evs: Seq<Explode>, n: int)
    requires
        forall|j: int| 0 <= j < evs.len() ==> sexplode_wf(#[trigger] evs[j]),
        0 <= n <= evs.len() <= 1_000,
    ensures
        0 <= stotal_damage(tx, ty, shell, evs, n) <= 1_000_000 * n,
    decreases n,
{
    if n > 0 {
        lemma_stotal_damage_bounds(tx, ty, shell, evs, n - 1);
        lemma_sexplosion_damage_bounds(tx, ty, shell, evs[n - 1]);
    }
}

/// Damage dealt by one explosion to a target with the given shell
/// correction, the executable form of [`sexplosion_damage`].
pub fn explosion_damage(target: Vec2, shell: i64, ev: &Explode) -> (d: i64)
    requires
        target.in_bounds(),
        sexplode_wf(*ev),
        0 <= shell <= MAX_RADIUS,
    ensures
        d == sexplosion_damage(target.x as int, target.y as int, shell as int, *ev),
        0 <= d <= ev.power,
{
    let centre_dist = target.dist(ev.pos);
    let shelled = centre_dist - shell;
    let dist = if shelled < UNIT {
        UNIT
    } else {
        shelled
    };
    if dist < MAX_BLAST_RADIUS {
        proof {
            crate::fxp::lemma_mul_abs_bound(ev.power as int, MAX_BLAST_RADIUS as int - dist,
                1_000_000, 20_000);
            crate::fxp::lemma_mul_abs_bound(ev.power as int, MAX_BLAST_RADIUS as int - dist,
                ev.power as int, MAX_BLAST_RADIUS as int);
            crate::fxp::lemma_fdiv_magnitude(
                ev.power as int * (MAX_BLAST_RADIUS as int - dist),
                MAX_BLAST_RADIUS as int,
                ev.power as int,
            );
            assert(ev.power as int * (MAX_BLAST_RADIUS as int - dist) >= 0) by (nonlinear_arith)
                requires
                    ev.power >= 0,
                    MAX_BLAST_RADIUS as int - dist >= 0,
            ;
            vstd::arithmetic::div_mod::lemma_div_pos_is_pos(
                ev.power as int * (MAX_BLAST_RADIUS as int - dist),
                MAX_BLAST_RADIUS as int,
            );
        }
        div_trunc(ev.power as i128 * (MAX_BLAST_RADIUS - dist) as i128, MAX_BLAST_RADIUS as i128)
            as i64
    } else {
        0
    }
}

/// Total damage the given explosions deal to a target, the executable
/// form of [`stotal_damage`].
pub fn total_damage(target: Vec2, shell: i64, evs: &Vec<Explode>) -> (d: i64)
    requires
        target.in_bounds(),
        forall|j: int| 0 <= j < evs@.len() ==> sexplode_wf(#[trigger] evs@[j]),
        evs@.len() <= 1_000,
        0 <= shell <= MAX_RADIUS,
    ensures
        d == stotal_damage(target.x as int, target.y as int, shell as int, evs@,
            evs@.len() as int),
        0 <= d <= 1_000_000_000,
{
    let mut acc: i64 = 0;
    let m = evs.len();
    let mut e: usize = 0;
    while e < m
        invariant
            m == evs@.len() <= 1_000,
            e <= m,
            target.in_bounds(),
            0 <= shell <= MAX_RADIUS,
            forall|j: int| 0 <= j < evs@.len() ==> sexplode_wf(#[trigger] evs@[j]),
            acc == stotal_damage(target.x as int, target.y as int, shell as int, evs@, e as int),
            0 <= acc <= 1_000_000 * e,
        decreases m - e,
    {
        let d = explosion_damage(target, shell, &evs[e]);
        acc = acc + d;
        e = e + 1;
    }
    acc
}

/// Apply the tick's explosions to every base against the pre-explosion
/// state, and destroy (with one event each, in slot order) every base
/// whose health falls below zero.
pub fn damage_base(world: &mut World, evs: &Vec<Explode>) -> (events: Vec<Event>)
    requires
        old(world).wf(),
        old(world).healthy(),
        forall|j: int| 0 <= j < evs@.len() ==> sexplode_wf(#[trigger] evs@[j]),
        evs@.len() <= 1_000,
    ensures
        final(world).wf(),
        final(world).healthy(),
        final(world).bases@.len() == old(world).bases@.len(),
        forall|i: int|
            0 <= i < final(world).bases@.len() ==> #[trigger] final(world).bases@[i]
                == sbase_after(old(world).bases@, evs@, i),
        final(world).players@.len() == old(world).players@.len(),
        forall|p: int|
            0 <= p < final(world).players@.len() ==> splayer_same_but_bases(
                #[trigger] final(world).players@[p],
                old(world).players@[p],
            ) && final(world).players@[p].bases@ == sprune_bases(
                old(world).players@[p].bases@,
                old(world).bases@,
                evs@,
                old(world).bases@.len() as int,
            ),
        events@ == sbase_destroy_events(old(world).bases@, evs@, old(world).bases@.len() as int),
        final(world).bases@ == sbases_after_all(old(world).bases@, evs@),
        final(world).asteroids == old(world).asteroids,
        final(world).weapons == old(world).weapons,
{
    let n = world.bases.len();
    let mut i: usize = 0;
    while i < n
        invariant
            world.wf(),
            n == world.bases@.len() == old(world).bases@.len(),
            i <= n,
            old(world).healthy(),
            forall|j: int| 0 <= j < evs@.len() ==> sexplode_wf(#[trigger] evs@[j]),
            evs@.len() <= 1_000,
            forall|j: int| i <= j < n ==> world.bases@[j] == old(world).bases@[j],
            forall|j: int|
                0 <= j < i ==> #[trigger] world.bases@[j] == ({
                    let b = old(world).bases@[j];
                    if b.alive {
                        Base {
                            health: (b.health - stotal_damage(
                                b.pos.x as int,
                                b.pos.y as int,
                                BASE_SHELL as int,
                                evs@,
                                evs@.len() as int,
                            )) as i64,
                            ..b
                        }
                    } else {
                        b
                    }
                }),
            world.asteroids == old(world).asteroids,
            world.players == old(world).players,
            world.weapons == old(world).weapons,
        decreases n - i,
    {
        let b = world.bases[i];
        if b.alive {
            let d = total_damage(b.pos, BASE_SHELL, evs);
            let bm = vstd::std_specs::vec::vec_index_mut(&mut world.bases, i);
            bm.health = bm.health - d;
        }
        i = i + 1;
    }
    let mut events: Vec<Event> = Vec::new();
    let mut k: usize = 0;
    while k < n
        invariant
            world.wf(),
            old(world).wf(),
            old(world).healthy(),
            n == world.bases@.len() == old(world).bases@.len(),
            k <= n,
            forall|j: int| 0 <= j < evs@.len() ==> sexplode_wf(#[trigger] evs@[j]),
            evs@.len() <= 1_000,
            forall|j: int|
                k <= j < n ==> #[trigger] world.bases@[j] == ({
                    let b = old(world).bases@[j];
                    if b.alive {
                        Base {
                            health: (b.health - stotal_damage(
                                b.pos.x as int,
                                b.pos.y as int,
                                BASE_SHELL as int,
                                evs@,
                                evs@.len() as int,
                            )) as i64,
                            ..b
                        }
                    } else {
                        b
                    }
                }),
            forall|j: int|
                0 <= j < k ==> #[trigger] world.bases@[j] == sbase_after(
                    old(world).bases@,
                    evs@,
                    j,
                ),
            world.players@.len() == old(world).players@.len(),
            forall|p: int|
                0 <= p < world.players@.len() ==> splayer_same_but_bases(
                    #[trigger] world.players@[p],
                    old(world).players@[p],
                ) && world.players@[p].bases@ == sprune_bases(
                    old(world).players@[p].bases@,
                    old(world).bases@,
                    evs@,
                    k as int,
                ),
            events@ == sbase_destroy_events(old(world).bases@, evs@, k as int),
            world.asteroids == old(world).asteroids,
            world.weapons == old(world).weapons,
        decreases n - k,
    {
        proof {
            let ob = old(world).bases@[k as int];
            lemma_stotal_damage_bounds(ob.pos.x as int, ob.pos.y as int, BASE_SHELL as int,
                evs@, evs@.len() as int);
        }
        let b = world.bases[k];
        if b.alive && b.health < 0 {
            world.destroy_base(k);
            events.push(Event::BaseDestroyed { base: k });
        }
        k = k + 1;
    }
    proof {
        assert forall|i: int|
            0 <= i < world.bases@.len() implies ((#[trigger] world.bases@[i]).alive ==> 0
            <= world.bases@[i].health) by {
            let ob = old(world).bases@[i];
            lemma_stotal_damage_bounds(ob.pos.x as int, ob.pos.y as int, BASE_SHELL as int,
                evs@, evs@.len() as int);
        }
        assert(world.bases@ =~= sbases_after_all(old(world).bases@, evs@));
    }
    events
}


/// Total damage to asteroid `i`, whose shell correction is its own
/// radius.
pub open spec fn sast_damage(asts: Seq<Asteroid>, evs: Seq<Explode>, i: int) -> int {
    stotal_damage(
        asts[i].pos.x as int,
        asts[i].pos.y as int,
        asts[i].radius as int,
        evs,
        evs.len() as int,
    )
}

/// Whether the pass destroys asteroid `i` (it would fall below the
/// minimum radius).
pub open spec fn sast_destroyed(asts: Seq<Asteroid>, evs: Seq<Explode>, i: int) -> bool {
    asts[i].alive && asts[i].radius - sast_damage(asts, evs, i) < MIN_RADIUS
}

/// Whether the pass shrinks asteroid `i` without destroying it.
pub open spec fn sast_shrunk(asts: Seq<Asteroid>, evs: Seq<Explode>, i: int) -> bool {
    asts[i].alive && !sast_destroyed(asts, evs, i) && sast_damage(asts, evs, i) > 0
}

/// An asteroid's record after the pass: shrunk by the total damage, or
/// destroyed (radius untouched) if that would cross the minimum.
pub open spec fn sast_after(asts: Seq<Asteroid>, evs: Seq<Explode>, i: int) -> Asteroid {
    let a = asts[i];
    if a.alive {
        let d = sast_damage(asts, evs, i);
        if a.radius - d < MIN_RADIUS {
            Asteroid { alive: false, ..a }
        } else {
            Asteroid { radius: (a.radius - d) as i64, ..a }
        }
    } else {
        a
    }
}

/// All asteroid records after the asteroid damage pass.
pub open spec fn sasts_after_all(asts: Seq<Asteroid>, evs: Seq<Explode>) -> Seq<Asteroid> {
    Seq::new(asts.len(), |i: int| sast_after(asts, evs, i))
}

/// Whether the cascade of a destroyed asteroid removes base `b`.
pub open spec fn scascade_dead(
    bases: Seq<Base>,
    asts: Seq<Asteroid>,
    evs: Seq<Explode>,
    b: int,
) -> bool {
    bases[b].alive && sast_destroyed(asts, evs, bases[b].asteroid as int)
}

/// Like [`scascade_dead`], but counting only the cascades of asteroids
/// before `upto` (the part already processed).
pub open spec fn scascade_dead_upto(
    bases: Seq<Base>,
    asts: Seq<Asteroid>,
    evs: Seq<Explode>,
    b: int,
    upto: int,
) -> bool {
    bases[b].alive && bases[b].asteroid < upto && sast_destroyed(asts, evs, bases[b].asteroid as int)
}

/// A base's record after the destruction cascade (before repositioning).
pub open spec fn sbase_mid(
    bases: Seq<Base>,
    asts: Seq<Asteroid>,
    evs: Seq<Explode>,
    b: int,
) -> Base {
    if scascade_dead(bases, asts, evs, b) {
        Base { alive: false, ..bases[b] }
    } else {
        bases[b]
    }
}

/// A base's record after the whole asteroid pass: destroyed with its
/// asteroid, or repositioned onto the shrunk surface.
pub open spec fn sbase_after_ast(
    bases: Seq<Base>,
    asts: Seq<Asteroid>,
    evs: Seq<Explode>,
    b: int,
) -> Base {
    let b0 = bases[b];
    if scascade_dead(bases, asts, evs, b) {
        Base { alive: false, ..b0 }
    } else if b0.alive && sast_shrunk(asts, evs, b0.asteroid as int) {
        let a = sast_after(asts, evs, b0.asteroid as int);
        let p = sbase_pos(
            a.pos.x as int,
            a.pos.y as int,
            a.radius as int,
            b0.offset as int,
            b0.rot.c as int,
            b0.rot.s as int,
        );
        Base { pos: Vec2 { x: p.0 as i64, y: p.1 as i64 }, ..b0 }
    } else {
        b0
    }
}

/// All base records after the asteroid damage pass.
pub open spec fn sbases_after_ast_all(
    bases: Seq<Base>,
    asts: Seq<Asteroid>,
    evs: Seq<Explode>,
) -> Seq<Base> {
    Seq::new(bases.len(), |b: int| sbase_after_ast(bases, asts, evs, b))
}

/// Destruction events of one destroyed asteroid's bases, among the first
/// `m` base slots, in slot order.
pub open spec fn sast_base_events(bases: Seq<Base>, a: int, m: int) -> Seq<Event>
    decreases m,
{
    if m <= 0 {
        Seq::empty()
    } else {
        let pre = sast_base_events(bases, a, m - 1);
        if bases[m - 1].alive && bases[m - 1].asteroid == a {
            pre.push(Event::BaseDestroyed { base: (m - 1) as usize })
        } else {
            pre
        }
    }
}

/// Events of the asteroid pass over the first `n` asteroids: each
/// destroyed asteroid announces itself, then every base still attached.
pub open spec fn sast_events(
    bases: Seq<Base>,
    asts: Seq<Asteroid>,
    evs: Seq<Explode>,
    n: int,
) -> Seq<Event>
    decreases n,
{
    if n <= 0 {
        Seq::empty()
    } else {
        let pre = sast_events(bases, asts, evs, n - 1);
        if sast_destroyed(asts, evs, n - 1) {
            pre.push(Event::AsteroidDestroyed { asteroid: (n - 1) as usize }).add(
                sast_base_events(bases, n - 1, bases.len() as int),
            )
        } else {
            pre
        }
    }
}

/// One destroyed asteroid's cascade, applied to a player's owned list:
/// its bases among the first `m` slots struck out in slot order.
pub open spec fn sprune_astro_inner(
    list: Seq<usize>,
    bases: Seq<Base>,
    a: int,
    m: int,
) -> Seq<usize>
    decreases m,
{
    if m <= 0 {
        list
    } else {
        let pre = sprune_astro_inner(list, bases, a, m - 1);
        if bases[m - 1].alive && bases[m - 1].asteroid == a {
            pre.remove_value((m - 1) as usize)
        } else {
            pre
        }
    }
}

/// A player's owned list after the cascades of the first `n` asteroids.
pub open spec fn sprune_cascade(
    list: Seq<usize>,
    bases: Seq<Base>,
    asts: Seq<Asteroid>,
    evs: Seq<Explode>,
    n: int,
) -> Seq<usize>
    decreases n,
{
    if n <= 0 {
        list
    } else {
        let pre = sprune_cascade(list, bases, asts, evs, n - 1);
        if sast_destroyed(asts, evs, n - 1) {
            sprune_astro_inner(pre, bases, n - 1, bases.len() as int)
        } else {
            pre
        }
    }
}

/// Apply the tick's explosions to every asteroid against the
/// pre-explosion state: shrink survivors (repositioning their bases onto
/// the new surface), destroy the rest, cascading one destruction event
/// per still-attached base before the asteroid is removed.
pub fn damage_asteroid(world: &mut World, evs: &Vec<Explode>) -> (events: Vec<Event>)
    requires
        old(world).wf(),
        forall|j: int| 0 <= j < evs@.len() ==> sexplode_wf(#[trigger] evs@[j]),
        evs@.len() <= 1_000,
    ensures
        final(world).wf(),
        old(world).healthy() ==> final(world).healthy(),
        final(world).asteroids@.len() == old(world).asteroids@.len(),
        forall|i: int|
            0 <= i < final(world).asteroids@.len() ==> #[trigger] final(world).asteroids@[i]
                == sast_after(old(world).asteroids@, evs@, i),
        final(world).bases@.len() == old(world).bases@.len(),
        forall|b: int|
            0 <= b < final(world).bases@.len() ==> #[trigger] final(world).bases@[b]
                == sbase_after_ast(old(world).bases@, old(world).asteroids@, evs@, b),
        final(world).players@.len() == old(world).players@.len(),
        forall|p: int|
            0 <= p < final(world).players@.len() ==> splayer_same_but_bases(
                #[trigger] final(world).players@[p],
                old(world).players@[p],
            ) && final(world).players@[p].bases@ == sprune_cascade(
                old(world).players@[p].bases@,
                old(world).bases@,
                old(world).asteroids@,
                evs@,
                old(world).asteroids@.len() as int,
            ),
        events@ == sast_events(
            old(world).bases@,
            old(world).asteroids@,
            evs@,
            old(world).asteroids@.len() as int,
        ),
        final(world).asteroids@ == sasts_after_all(old(world).asteroids@, evs@),
        final(world).bases@ == sbases_after_ast_all(old(world).bases@, old(world).asteroids@, evs@),
        final(world).weapons == old(world).weapons,
{
    let n = world.asteroids.len();
    let mut destroyed: Vec<bool> = Vec::new();
    let mut changed: Vec<bool> = Vec::new();
    let mut i: usize = 0;
    while i < n
        invariant
            world.wf(),
            old(world).wf(),
            n == world.asteroids@.len() == old(world).asteroids@.len(),
            i <= n,
            forall|j: int| 0 <= j < evs@.len() ==> sexplode_wf(#[trigger] evs@[j]),
            evs@.len() <= 1_000,
            destroyed@.len() == i,
            changed@.len() == i,
            forall|j: int|
                0 <= j < i ==> #[trigger] destroyed@[j] == sast_destroyed(
                    old(world).asteroids@,
                    evs@,
                    j,
                ),
            forall|j: int|
                0 <= j < i ==> #[trigger] changed@[j] == sast_shrunk(
                    old(world).asteroids@,
                    evs@,
                    j,
                ),
            forall|j: int|
                0 <= j < i ==> #[trigger] world.asteroids@[j] == sast_after(
                    old(world).asteroids@,
                    evs@,
                    j,
                ),
            forall|j: int| i <= j < n ==> world.asteroids@[j] == old(world).asteroids@[j],
            world.bases == old(world).bases,
            world.players == old(world).players,
            world.weapons == old(world).weapons,
        decreases n - i,
    {
        let a = world.asteroids[i];
        proof {
            lemma_stotal_damage_bounds(a.pos.x as int, a.pos.y as int, a.radius as int, evs@,
                evs@.len() as int);
        }
        if a.alive {
            let d = total_damage(a.pos, a.radius, evs);
            if a.radius - d < MIN_RADIUS {
                let am = vstd::std_specs::vec::vec_index_mut(&mut world.asteroids, i);
                am.alive = false;
                destroyed.push(true);
                changed.push(false);
            } else {
                let am = vstd::std_specs::vec::vec_index_mut(&mut world.asteroids, i);
                am.radius = am.radius - d;
                destroyed.push(false);
                changed.push(d > 0);
            }
        } else {
            destroyed.push(false);
            changed.push(false);
        }
        i = i + 1;
    }
    let mut events: Vec<Event> = Vec::new();
    let mut k: usize = 0;
    while k < n
        invariant
            world.wf(),
            old(world).wf(),
            n == world.asteroids@.len() == old(world).asteroids@.len(),
            k <= n,
            forall|j: int| 0 <= j < evs@.len() ==> sexplode_wf(#[trigger] evs@[j]),
            evs@.len() <= 1_000,
            destroyed@.len() == n,
            forall|j: int|
                0 <= j < n ==> #[trigger] destroyed@[j] == sast_destroyed(
                    old(world).asteroids@,
                    evs@,
                    j,
                ),
            forall|j: int|
                0 <= j < n ==> #[trigger] world.asteroids@[j] == sast_after(
                    old(world).asteroids@,
                    evs@,
                    j,
                ),
            world.bases@.len() == old(world).bases@.len(),
            forall|b: int|
                0 <= b < world.bases@.len() ==> #[trigger] world.bases@[b] == (
                if scascade_dead_upto(old(world).bases@, old(world).asteroids@, evs@, b, k as int) {
                    Base { alive: false, ..old(world).bases@[b] }
                } else {
                    old(world).bases@[b]
                }),
            world.players@.len() == old(world).players@.len(),
            forall|p: int|
                0 <= p < world.players@.len() ==> splayer_same_but_bases(
                    #[trigger] world.players@[p],
                    old(world).players@[p],
                ) && world.players@[p].bases@ == sprune_cascade(
                    old(world).players@[p].bases@,
                    old(world).bases@,
                    old(world).asteroids@,
                    evs@,
                    k as int,
                ),
            events@ == sast_events(old(world).bases@, old(world).asteroids@, evs@, k as int),
            world.weapons == old(world).weapons,
        decreases n - k,
    {
        if destroyed[k] {
            events.push(Event::AsteroidDestroyed { asteroid: k });
            let m = world.bases.len();
            let mut b: usize = 0;
            while b < m
                invariant
                    world.wf(),
                    old(world).wf(),
                    n == world.asteroids@.len() == old(world).asteroids@.len(),
                    k < n,
                    sast_destroyed(old(world).asteroids@, evs@, k as int),
                    m == world.bases@.len() == old(world).bases@.len(),
                    b <= m,
                    forall|j: int|
                        0 <= j < n ==> #[trigger] world.asteroids@[j] == sast_after(
                            old(world).asteroids@,
                            evs@,
                            j,
                        ),
                    forall|bb: int|
                        0 <= bb < world.bases@.len() ==> #[trigger] world.bases@[bb] == (
                        if scascade_dead_upto(old(world).bases@, old(world).asteroids@, evs@, bb,
                            k as int) || (bb < b && old(world).bases@[bb].alive && old(
                            world,
                        ).bases@[bb].asteroid == k) {
                            Base { alive: false, ..old(world).bases@[bb] }
                        } else {
                            old(world).bases@[bb]
                        }),
                    world.players@.len() == old(world).players@.len(),
                    forall|p: int|
                        0 <= p < world.players@.len() ==> splayer_same_but_bases(
                            #[trigger] world.players@[p],
                            old(world).players@[p],
                        ) && world.players@[p].bases@ == sprune_astro_inner(
                            sprune_cascade(
                                old(world).players@[p].bases@,
                                old(world).bases@,
                                old(world).asteroids@,
                                evs@,
                                k as int,
                            ),
                            old(world).bases@,
                            k as int,
                            b as int,
                        ),
                    events@ == sast_events(
                        old(world).bases@,
                        old(world).asteroids@,
                        evs@,
                        k as int,
                    ).push(Event::AsteroidDestroyed { asteroid: k }).add(
                        sast_base_events(old(world).bases@, k as int, b as int),
                    ),
                    world.weapons == old(world).weapons,
                decreases m - b,
            {
                let bb = world.bases[b];
                if bb.alive && bb.asteroid == k {
                    world.destroy_base(b);
                    events.push(Event::BaseDestroyed { base: b });
                }
                b = b + 1;
            }
        }
        k = k + 1;
    }
    let mut r: usize = 0;
    while r < n
        invariant
            world.wf(),
            old(world).wf(),
            n == world.asteroids@.len() == old(world).asteroids@.len(),
            r <= n,
            forall|j: int| 0 <= j < evs@.len() ==> sexplode_wf(#[trigger] evs@[j]),
            evs@.len() <= 1_000,
            changed@.len() == n,
            forall|j: int|
                0 <= j < n ==> #[trigger] changed@[j] == sast_shrunk(
                    old(world).asteroids@,
                    evs@,
                    j,
                ),
            forall|j: int|
                0 <= j < n ==> #[trigger] world.asteroids@[j] == sast_after(
                    old(world).asteroids@,
                    evs@,
                    j,
                ),
            world.bases@.len() == old(world).bases@.len(),
            forall|b: int|
                0 <= b < world.bases@.len() ==> #[trigger] world.bases@[b] == ({
                    let mid = sbase_mid(old(world).bases@, old(world).asteroids@, evs@, b);
                    if mid.alive && mid.asteroid < r && sast_shrunk(
                        old(world).asteroids@,
                        evs@,
                        mid.asteroid as int,
                    ) {
                        let a = sast_after(old(world).asteroids@, evs@, mid.asteroid as int);
                        let p = sbase_pos(
                            a.pos.x as int,
                            a.pos.y as int,
                            a.radius as int,
                            mid.offset as int,
                            mid.rot.c as int,
                            mid.rot.s as int,
                        );
                        Base { pos: Vec2 { x: p.0 as i64, y: p.1 as i64 }, ..mid }
                    } else {
                        mid
                    }
                }),
            world.players@.len() == old(world).players@.len(),
            forall|p: int|
                0 <= p < world.players@.len() ==> splayer_same_but_bases(
                    #[trigger] world.players@[p],
                    old(world).players@[p],
                ) && world.players@[p].bases@ == sprune_cascade(
                    old(world).players@[p].bases@,
                    old(world).bases@,
                    old(world).asteroids@,
                    evs@,
                    n as int,
                ),
            events@ == sast_events(old(world).bases@, old(world).asteroids@, evs@, n as int),
            world.weapons == old(world).weapons,
        decreases n - r,
    {
        if changed[r] {
            world.recompute_base_positions(r);
        }
        r = r + 1;
    }
    proof {
        assert(world.asteroids@ =~= sasts_after_all(old(world).asteroids@, evs@));
        assert(world.bases@ =~= sbases_after_ast_all(old(world).bases@, old(world).asteroids@,
            evs@));
    }
    events
}


/// Occurrences of `AsteroidDestroyed { asteroid: a }` among the first `n`
/// events.
pub open spec fn scount_ast_destroyed(evs: Seq<Event>, a: int, n: int) -> int
    decreases n,
{
    if n <= 0 {
        0
    } else {
        scount_ast_destroyed(evs, a, n - 1) + if evs[n - 1] == (Event::AsteroidDestroyed {
            asteroid: a as usize,
        }) {
            1int
        } else {
            0int
        }
    }
}

/// Counting over a concatenation splits at the seam.
proof fn lemma_scount_concat(s1: Seq<Event>, s2: Seq<Event>, a: int, k: int)
    requires
        0 <= k <= s2.len(),
    ensures
        scount_ast_destroyed(s1 + s2, a, s1.len() as int + k) == scount_ast_destroyed(
            s1,
            a,
            s1.len() as int,
        ) + scount_ast_destroyed(s2, a, k),
    decreases k,
{
    if k == 0 {
        lemma_scount_prefix(s1, s2, a, s1.len() as int);
    } else {
        lemma_scount_concat(s1, s2, a, k - 1);
        assert((s1 + s2)[s1.len() + k - 1] == s2[k - 1]);
    }
}

/// Counting a prefix that lies wholly in the first part of a
/// concatenation ignores the second.
proof fn lemma_scount_prefix(s1: Seq<Event>, s2: Seq<Event>, a: int, n: int)
    requires
        0 <= n <= s1.len(),
    ensures
        scount_ast_destroyed(s1 + s2, a, n) == scount_ast_destroyed(s1, a, n),
    decreases n,
{
    if n > 0 {
        lemma_scount_prefix(s1, s2, a, n - 1);
        assert((s1 + s2)[n - 1] == s1[n - 1]);
    }
}

/// The cascade's base-destruction events never mention an asteroid.
proof fn lemma_sast_base_events_no_asteroid(bases: Seq<Base>, a0: int, m: int, a: int)
    requires
        0 <= m <= 1_000,
    ensures
        scount_ast_destroyed(sast_base_events(bases, a0, m), a, sast_base_events(
            bases,
            a0,
            m,
        ).len() as int) == 0,
        sast_base_events(bases, a0, m).len() <= m,
    decreases m,
{
    if m > 0 {
        lemma_sast_base_events_no_asteroid(bases, a0, m - 1, a);
        let pre = sast_base_events(bases, a0, m - 1);
        if bases[m - 1].alive && bases[m - 1].asteroid == a0 {
            lemma_scount_push_aux(pre, Event::BaseDestroyed { base: (m - 1) as usize }, a,
                pre.len() as int);
        }
    }
}

/// An asteroid the pass destroys appears in exactly one destruction
/// event; one it spares appears in none.
pub proof fn lemma_asteroid_destroyed_once(
    bases: Seq<Base>,
    asts: Seq<Asteroid>,
    evs: Seq<Explode>,
    a: int,
    n: int,
)
    requires
        0 <= a < asts.len(),
        0 <= n <= asts.len(),
        asts.len() <= 1_000,
        bases.len() <= 1_000,
    ensures
        scount_ast_destroyed(sast_events(bases, asts, evs, n), a, sast_events(
            bases,
            asts,
            evs,
            n,
        ).len() as int) == if a < n && sast_destroyed(asts, evs, a) {
            1int
        } else {
            0int
        },
    decreases n,
{
    if n > 0 {
        lemma_asteroid_destroyed_once(bases, asts, evs, a, n - 1);
        let pre = sast_events(bases, asts, evs, n - 1);
        if sast_destroyed(asts, evs, n - 1) {
            let mid = pre.push(Event::AsteroidDestroyed { asteroid: (n - 1) as usize });
            let inner = sast_base_events(bases, n - 1, bases.len() as int);
            lemma_scount_concat(mid, inner, a, inner.len() as int);
            lemma_sast_base_events_no_asteroid(bases, n - 1, bases.len() as int, a);
            assert(mid == pre.push(Event::AsteroidDestroyed { asteroid: (n - 1) as usize }));
            assert(scount_ast_destroyed(mid, a, mid.len() as int) == scount_ast_destroyed(
                pre,
                a,
                pre.len() as int,
            ) + if (n - 1) as usize as int == a {
                1int
            } else {
                0int
            }) by {
                assert(mid[mid.len() - 1] == (Event::AsteroidDestroyed {
                    asteroid: (n - 1) as usize,
                }));
                lemma_scount_prefix_push(pre, Event::AsteroidDestroyed {
                    asteroid: (n - 1) as usize,
                }, a);
            }
        }
    }
}

/// Counting over a push adds the pushed event's contribution.
proof fn lemma_scount_prefix_push(s: Seq<Event>, e: Event, a: int)
    ensures
        scount_ast_destroyed(s.push(e), a, s.len() as int + 1) == scount_ast_destroyed(
            s,
            a,
            s.len() as int,
        ) + if e == (Event::AsteroidDestroyed { asteroid: a as usize }) {
            1int
        } else {
            0int
        },
{
    lemma_scount_push_aux(s, e, a, s.len() as int);
}

proof fn lemma_scount_push_aux(s: Seq<Event>, e: Event, a: int, n: int)
    requires
        0 <= n <= s.len(),
    ensures
        scount_ast_destroyed(s.push(e), a, n) == scount_ast_destroyed(s, a, n),
    decreases n,
{
    if n > 0 {
        lemma_scount_push_aux(s, e, a, n - 1);
        assert(s.push(e)[n - 1] == s[n - 1]);
    }
}

/// Damage accounting for one asteroid over one pass: a surviving asteroid
/// shrinks by exactly the total damage and stays at or above the minimum
/// radius; a destroyed one keeps its radius and only loses its live flag.
pub proof fn lemma_asteroid_damage_accounting(asts: Seq<Asteroid>, evs: Seq<Explode>, i: int)
    requires
        0 <= i < asts.len(),
        asts[i].wf(),
        forall|j: int| 0 <= j < evs.len() ==> sexplode_wf(#[trigger] evs[j]),
        evs.len() <= 1_000,
    ensures
        asts[i].alive && !sast_destroyed(asts, evs, i) ==> sast_after(asts, evs, i) == (Asteroid {
            radius: (asts[i].radius - sast_damage(asts, evs, i)) as i64,
            ..asts[i]
        }) && sast_after(asts, evs, i).radius == asts[i].radius - sast_damage(asts, evs, i)
            && sast_after(asts, evs, i).radius >= MIN_RADIUS,
        sast_destroyed(asts, evs, i) ==> sast_after(asts, evs, i) == (Asteroid {
            alive: false,
            ..asts[i]
        }),
        !asts[i].alive ==> sast_after(asts, evs, i) == asts[i],
        0 <= sast_damage(asts, evs, i) <= 1_000_000_000,
{
    lemma_stotal_damage_bounds(
        asts[i].pos.x as int,
        asts[i].pos.y as int,
        asts[i].radius as int,
        evs,
        evs.len() as int,
    );
}

/// Sum of a sequence of damage amounts.
pub open spec fn ssum(ds: Seq<int>) -> int
    decreases ds.len(),
{
    if ds.len() == 0 {
        0
    } else {
        ssum(ds.drop_last()) + ds.last()
    }
}

/// Radius after applying a sequence of per-pass damage totals in order.
pub open spec fn sshrunk_radius(r0: int, ds: Seq<int>) -> int
    decreases ds.len(),
{
    if ds.len() == 0 {
        r0
    } else {
        sshrunk_radius(r0, ds.drop_last()) - ds.last()
    }
}

/// Over any number of surviving damage passes, the radius is the initial
/// radius minus the sum of all damage taken.
pub proof fn lemma_radius_is_initial_minus_total(r0: int, ds: Seq<int>)
    ensures
        sshrunk_radius(r0, ds) == r0 - ssum(ds),
    decreases ds.len(),
{
    if ds.len() > 0 {
        lemma_radius_is_initial_minus_total(r0, ds.drop_last());
    }
}

} // verus!
