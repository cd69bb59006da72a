//! The entity registry: arenas of asteroids, bases, players and weapons
//! with stable slot indices, and the asteroid-to-base positional
//! derivation.
//!
//! A base is a child of exactly one asteroid (its position is derived from
//! the asteroid's radius and the base's fixed angle) and owned by exactly
//! one player.  Destruction marks slots dead; indices stay stable for the
//! whole game.

use vstd::prelude::*;

use crate::consts::{MAX_AST_COORD, MAX_RADIUS, MIN_RADIUS, MAX_ASTEROIDS, MAX_BASES,
    MAX_PLAYERS, MAX_PROJECTILES, SCALE, PI_MRAD, FULL_HEALTH, BASE_OFFSET};
use crate::fxp::{fdiv, div_trunc};
use crate::vec2::{Vec2, Rot, ssin, scos};
use crate::geom::Circle;
use crate::weapon::Weapon;

verus! {

/// A colour in milli-intensities per channel.
#[derive(Clone, Copy, PartialEq, Eq, Structural, Debug)]
pub struct Colour {
    pub r: i64,
    pub g: i64,
    pub b: i64,
}

/// A mass-bearing, destructible body; shrinks under damage.
#[derive(Clone, Copy, PartialEq, Eq, Structural, Debug)]
pub struct Asteroid {
    /// Centre position, milli-units.
    pub pos: Vec2,
    /// Current radius, milli-units; shrinks under damage.
    pub radius: i64,
    /// Initial radius, milli-units; immutable.
    pub max_radius: i64,
    /// Live flag in the arena.
    pub alive: bool,
}

/// A player-owned structure fixed to an asteroid's surface.
#[derive(Clone, Copy, PartialEq, Eq, Structural, Debug)]
pub struct Base {
    /// Parent asteroid slot.
    pub asteroid: usize,
    /// Owning player slot.
    pub player: usize,
    /// Angular position on the parent's surface, milli-radians; immutable.
    pub angle: i64,
    /// Orientation on the surface: the rotation by `angle`.
    pub rot: Rot,
    /// Radial inset from the surface, milli-units; immutable.
    pub offset: i64,
    /// Health, milli-points.
    pub health: i64,
    /// Derived world position; recomputed when the parent radius changes.
    pub pos: Vec2,
    /// True only for the active base of the active player.
    pub active: bool,
    /// Live flag in the arena.
    pub alive: bool,
}

/// A player: a name, a colour, and the owned bases in creation order.
#[derive(Clone, Debug)]
pub struct Player {
    pub name: &'static str,
    pub colour: Colour,
    /// Slots of the owned, still-live bases, in creation order.
    pub bases: Vec<usize>,
    /// Rotating index into `bases`, advanced turn to turn.
    pub current_base: usize,
}

/// The registry owning every entity of the running game.
pub struct World {
    pub asteroids: Vec<Asteroid>,
    pub bases: Vec<Base>,
    pub players: Vec<Player>,
    pub weapons: Vec<Weapon>,
}

/// World position of a base: asteroid centre plus `radius - offset`
/// projected along the base's angle (`(-sin, cos)` direction).
pub open spec fn sbase_pos(ax: int, ay: int, radius: int, offset: int, c: int, s: int) -> (
    int,
    int,
) {
    let k = radius - offset;
    (ax - fdiv(k * s, SCALE as int), ay + fdiv(k * c, SCALE as int))
}

/// Surface tracking: after a reposition, the distance from a base to its
/// asteroid's centre is `radius - offset` up to fixed-point rounding.
/// For an exactly-unit direction the squared distance differs from
/// `(radius - offset)^2` by at most `4 (radius - offset) + 2`.
pub proof fn lemma_base_surface_distance(
    ax: int,
    ay: int,
    radius: int,
    offset: int,
    c: int,
    s: int,
)
    requires
        c * c + s * s == SCALE * SCALE,
        0 <= radius - offset,
    ensures
        ({
            let p = sbase_pos(ax, ay, radius, offset, c, s);
            let k = radius - offset;
            let d2 = crate::vec2::sdist_sq(p.0, p.1, ax, ay);
            -(4 * k + 2) <= d2 - k * k <= 4 * k + 2
        }),
{
    let sc = SCALE as int;
    let k = radius - offset;
    let qx = fdiv(k * s, sc);
    let qy = fdiv(k * c, sc);
    crate::fxp::lemma_fdiv_bounds(k * s, sc);
    crate::fxp::lemma_fdiv_bounds(k * c, sc);
    let rx = k * s - qx * sc;
    let ry = k * c - qy * sc;
    assert(-sc < rx < sc) by {
        if k * s >= 0 {
            assert(qx * sc <= k * s < qx * sc + sc);
        } else {
            assert(qx * sc - sc < k * s <= qx * sc);
        }
    }
    assert(-sc < ry < sc) by {
        if k * c >= 0 {
            assert(qy * sc <= k * c < qy * sc + sc);
        } else {
            assert(qy * sc - sc < k * c <= qy * sc);
        }
    }
    assert(-sc <= s <= sc && -sc <= c <= sc) by (nonlinear_arith)
        requires
            c * c + s * s == sc * sc,
            sc == 1000,
    ;
    let p = sbase_pos(ax, ay, radius, offset, c, s);
    assert(p.0 - ax == -qx && p.1 - ay == qy);
    let d2 = crate::vec2::sdist_sq(p.0, p.1, ax, ay);
    assert(d2 == qx * qx + qy * qy) by (nonlinear_arith)
        requires
            d2 == (p.0 - ax) * (p.0 - ax) + (p.1 - ay) * (p.1 - ay),
            p.0 - ax == -qx,
            p.1 - ay == qy,
    ;
    let ks = k * s;
    let kc = k * c;
    let u = ks - rx;
    let v = kc - ry;
    assert(u == qx * sc && v == qy * sc);
    assert(u * u == ks * ks - 2 * (ks * rx) + rx * rx) by (nonlinear_arith)
        requires
            u == ks - rx,
    ;
    assert(v * v == kc * kc - 2 * (kc * ry) + ry * ry) by (nonlinear_arith)
        requires
            v == kc - ry,
    ;
    assert(u * u + v * v == (qx * qx + qy * qy) * (sc * sc)) by (nonlinear_arith)
        requires
            u == qx * sc,
            v == qy * sc,
    ;
    assert(ks * ks + kc * kc == (k * k) * (sc * sc)) by (nonlinear_arith)
        requires
            ks == k * s,
            kc == k * c,
            c * c + s * s == sc * sc,
    ;
    assert(ks * rx == k * (s * rx) && kc * ry == k * (c * ry)) by (nonlinear_arith)
        requires
            ks == k * s,
            kc == k * c,
    ;
    assert((qx * qx + qy * qy) * (sc * sc) - (k * k) * (sc * sc) == (d2 - k * k) * (sc * sc))
        by (nonlinear_arith)
        requires
            d2 == qx * qx + qy * qy,
    ;
    assert(k * (s * rx) + k * (c * ry) == k * (s * rx + c * ry)) by (nonlinear_arith);
    assert(-2 * k * (s * rx + c * ry) == -2 * (k * (s * rx + c * ry))) by (nonlinear_arith);
    assert((d2 - k * k) * (sc * sc) == -2 * k * (s * rx + c * ry) + rx * rx + ry * ry);
    assert(-1_000_000 <= s * rx <= 1_000_000 && -1_000_000 <= c * ry <= 1_000_000
        && 0 <= rx * rx <= 1_000_000 && 0 <= ry * ry <= 1_000_000) by (nonlinear_arith)
        requires
            -sc < rx < sc,
            -sc < ry < sc,
            -sc <= s <= sc,
            -sc <= c <= sc,
            sc == 1000,
    ;
    assert(-(4 * k + 2) * 1_000_000 <= -2 * k * (s * rx + c * ry) + rx * rx + ry * ry
        <= (4 * k + 2) * 1_000_000) by (nonlinear_arith)
        requires
            -1_000_000 <= s * rx <= 1_000_000,
            -1_000_000 <= c * ry <= 1_000_000,
            0 <= rx * rx <= 1_000_000,
            0 <= ry * ry <= 1_000_000,
            k >= 0,
    ;
    assert(-(4 * k + 2) <= d2 - k * k <= 4 * k + 2) by (nonlinear_arith)
        requires
            (d2 - k * k) * (sc * sc) == -2 * k * (s * rx + c * ry) + rx * rx + ry * ry,
            -(4 * k + 2) * 1_000_000 <= -2 * k * (s * rx + c * ry) + rx * rx + ry * ry
                <= (4 * k + 2) * 1_000_000,
            sc == 1000,
    ;
}

/// Bounding circles of the live asteroids among the first `n`, in slot
/// order: what the gravity field and the collision pass read.
pub open spec fn slive_circles(asts: Seq<Asteroid>, n: int) -> Seq<Circle>
    decreases n,
{
    if n <= 0 {
        Seq::empty()
    } else {
        let pre = slive_circles(asts, n - 1);
        if asts[n - 1].alive {
            pre.push(Circle { centre: asts[n - 1].pos, radius: asts[n - 1].radius })
        } else {
            pre
        }
    }
}

impl Asteroid {
    pub open spec fn wf(self) -> bool {
        -MAX_AST_COORD <= self.pos.x <= MAX_AST_COORD && -MAX_AST_COORD <= self.pos.y
            <= MAX_AST_COORD && 0 <= self.radius <= self.max_radius && MIN_RADIUS
            <= self.max_radius <= MAX_RADIUS && (self.alive ==> MIN_RADIUS <= self.radius)
    }

    /// The asteroid's bounding circle.
    pub fn bound(&self) -> (c: Circle)
        requires
            self.wf(),
        ensures
            c.centre == self.pos,
            c.radius == self.radius,
            c.wf(),
    {
        Circle { centre: self.pos, radius: self.radius }
    }
}

impl Base {
    /// Field-only well-formedness; slot references are checked by
    /// [`World::wf`].
    pub open spec fn wf(self) -> bool {
        self.pos.in_bounds() && self.rot.bounded() && -PI_MRAD <= self.angle <= PI_MRAD
            && -100_000 <= self.offset <= 100_000 && -2_000_000_000 <= self.health <= FULL_HEALTH
    }
}

impl Player {
    /// The owned-base list holds distinct, in-range slots.
    pub open spec fn wf(self, nbases: int) -> bool {
        self.bases@.len() <= MAX_BASES && self.current_base <= 1_000_000 && (forall|k: int|
            0 <= k < self.bases@.len() ==> 0 <= #[trigger] self.bases@[k] < nbases) && (forall|
            k1: int,
            k2: int,
        |
            0 <= k1 < k2 < self.bases@.len() ==> self.bases@[k1] != self.bases@[k2])
    }
}

/// Two player records agreeing on everything but the owned-base list.
pub open spec fn splayer_same_but_bases(a: Player, b: Player) -> bool {
    a.name == b.name && a.colour == b.colour && a.current_base == b.current_base
}

impl World {
    /// The registry invariant: arenas within capacity, every record
    /// well-formed, slot references in range, live bases on live
    /// asteroids, and player base lists naming distinct live bases they
    /// own.
    pub open spec fn wf(self) -> bool {
        &&& self.asteroids@.len() <= MAX_ASTEROIDS
        &&& self.bases@.len() <= MAX_BASES
        &&& self.players@.len() <= MAX_PLAYERS
        &&& self.weapons@.len() <= MAX_PROJECTILES
        &&& forall|i: int|
            0 <= i < self.asteroids@.len() ==> (#[trigger] self.asteroids@[i]).wf()
        &&& forall|i: int|
            0 <= i < self.bases@.len() ==> (#[trigger] self.bases@[i]).wf()
        &&& forall|i: int|
            0 <= i < self.bases@.len() ==> (#[trigger] self.bases@[i]).asteroid
                < self.asteroids@.len() && self.bases@[i].player < self.players@.len()
        &&& forall|p: int|
            0 <= p < self.players@.len() ==> (#[trigger] self.players@[p]).wf(
                self.bases@.len() as int,
            )
        &&& forall|p: int, k: int|
            0 <= p < self.players@.len() && 0 <= k < self.players@[p].bases@.len() ==> {
                let b = #[trigger] self.players@[p].bases@[k];
                self.bases@[b as int].alive && self.bases@[b as int].player == p
            }
        &&& forall|i: int|
            0 <= i < self.weapons@.len() ==> (#[trigger] self.weapons@[i]).wf()
    }

    /// Between ticks every live base has non-negative health (a base
    /// dropping below zero is destroyed within the same damage pass).
    pub open spec fn healthy(self) -> bool {
        forall|i: int|
            0 <= i < self.bases@.len() ==> ((#[trigger] self.bases@[i]).alive
                ==> 0 <= self.bases@[i].health)
    }

    /// An empty registry.
    pub fn new() -> (w: World)
        ensures
            w.wf(),
            w.asteroids@.len() == 0,
            w.bases@.len() == 0,
            w.players@.len() == 0,
            w.weapons@.len() == 0,
    {
        World { asteroids: Vec::new(), bases: Vec::new(), players: Vec::new(), weapons: Vec::new() }
    }

    /// Create the two players of a game, with no bases owned yet.
    pub fn setup_players(&mut self) -> (ids: (usize, usize))
        requires
            old(self).wf(),
            old(self).players@.len() == 0,
        ensures
            final(self).wf(),
            ids == (0usize, 1usize),
            final(self).players@.len() == 2,
            final(self).players@[0].name@ == "Robert"@,
            final(self).players@[0].colour == (Colour { r: 750, g: 150, b: 150 }),
            final(self).players@[0].bases@.len() == 0,
            final(self).players@[0].current_base == 0,
            final(self).players@[1].name@ == "James"@,
            final(self).players@[1].colour == (Colour { r: 150, g: 750, b: 150 }),
            final(self).players@[1].bases@.len() == 0,
            final(self).players@[1].current_base == 0,
            final(self).asteroids == old(self).asteroids,
            final(self).bases == old(self).bases,
            final(self).weapons == old(self).weapons,
    {
        self.players.push(
            Player {
                name: "Robert",
                colour: Colour { r: 750, g: 150, b: 150 },
                bases: Vec::new(),
                current_base: 0,
            },
        );
        self.players.push(
            Player {
                name: "James",
                colour: Colour { r: 150, g: 750, b: 150 },
                bases: Vec::new(),
                current_base: 0,
            },
        );
        (0, 1)
    }

    /// Add an asteroid at `(x, y)`: initial radius 50 units, full size 100.
    pub fn add_asteroid(&mut self, x: i64, y: i64) -> (id: usize)
        requires
            old(self).wf(),
            old(self).asteroids@.len() < MAX_ASTEROIDS,
            -MAX_AST_COORD <= x <= MAX_AST_COORD,
            -MAX_AST_COORD <= y <= MAX_AST_COORD,
        ensures
            final(self).wf(),
            id == old(self).asteroids@.len(),
            final(self).asteroids@ == old(self).asteroids@.push(
                Asteroid {
                    pos: Vec2 { x, y },
                    radius: 50_000,
                    max_radius: 100_000,
                    alive: true,
                },
            ),
            final(self).bases == old(self).bases,
            final(self).players == old(self).players,
            final(self).weapons == old(self).weapons,
    {
        let id = self.asteroids.len();
        self.asteroids.push(
            Asteroid { pos: Vec2 { x, y }, radius: 50_000, max_radius: 100_000, alive: true },
        );
        id
    }

    /// Add a base for `player` on the surface of `asteroid` at `angle`,
    /// at full health, inactive, and register it with its owner.
    pub fn add_base(&mut self, asteroid: usize, player: usize, angle: i64) -> (id: usize)
        requires
            old(self).wf(),
            old(self).bases@.len() < MAX_BASES,
            asteroid < old(self).asteroids@.len(),
            old(self).asteroids@[asteroid as int].alive,
            player < old(self).players@.len(),
            old(self).players@[player as int].bases@.len() < MAX_BASES,
            -PI_MRAD <= angle <= PI_MRAD,
        ensures
            final(self).wf(),
            id == old(self).bases@.len(),
            final(self).bases@.len() == old(self).bases@.len() + 1,
            forall|i: int| 0 <= i < id ==> final(self).bases@[i] == old(self).bases@[i],
            ({
                let b = final(self).bases@[id as int];
                let ast = old(self).asteroids@[asteroid as int];
                &&& b.asteroid == asteroid
                &&& b.player == player
                &&& b.angle == angle
                &&& b.rot.s == ssin(angle as int)
                &&& b.rot.c == scos(angle as int)
                &&& b.offset == BASE_OFFSET
                &&& b.health == FULL_HEALTH
                &&& (b.pos.x as int, b.pos.y as int) == sbase_pos(
                    ast.pos.x as int,
                    ast.pos.y as int,
                    ast.radius as int,
                    BASE_OFFSET as int,
                    b.rot.c as int,
                    b.rot.s as int,
                )
                &&& !b.active
                &&& b.alive
            }),
            final(self).players@.len() == old(self).players@.len(),
            final(self).players@[player as int].bases@ == old(self).players@[player as int].bases@.push(
                id,
            ),
            final(self).players@[player as int].name == old(self).players@[player as int].name,
            final(self).players@[player as int].colour == old(self).players@[player as int].colour,
            final(self).players@[player as int].current_base == old(self).players@[player as int].current_base,
            forall|p: int|
                0 <= p < final(self).players@.len() && p != player ==> final(self).players@[p] == old(self).players@[p],
            final(self).asteroids == old(self).asteroids,
            final(self).weapons == old(self).weapons,
    {
        let id = self.bases.len();
        let rot = Rot::from_mrad(angle);
        let ast = self.asteroids[asteroid];
        let pos = base_position(ast.pos, ast.radius, BASE_OFFSET, rot);
        self.bases.push(
            Base {
                asteroid,
                player,
                angle,
                rot,
                offset: BASE_OFFSET,
                health: FULL_HEALTH,
                pos,
                active: false,
                alive: true,
            },
        );
        let p = vstd::std_specs::vec::vec_index_mut(&mut self.players, player);
        p.bases.push(id);
        id
    }

    /// Reposition every live base attached to `asteroid` onto its surface
    /// (change-triggered: run once after a radius change, not every tick).
    pub fn recompute_base_positions(&mut self, asteroid: usize)
        requires
            old(self).wf(),
            asteroid < old(self).asteroids@.len(),
        ensures
            final(self).wf(),
            final(self).bases@.len() == old(self).bases@.len(),
            forall|i: int|
                0 <= i < final(self).bases@.len() ==> #[trigger] final(self).bases@[i] == {
                    let b = old(self).bases@[i];
                    let ast = old(self).asteroids@[asteroid as int];
                    if b.alive && b.asteroid == asteroid {
                        let p = sbase_pos(
                            ast.pos.x as int,
                            ast.pos.y as int,
                            ast.radius as int,
                            b.offset as int,
                            b.rot.c as int,
                            b.rot.s as int,
                        );
                        Base { pos: Vec2 { x: p.0 as i64, y: p.1 as i64 }, ..b }
                    } else {
                        b
                    }
                },
            final(self).asteroids == old(self).asteroids,
            final(self).players == old(self).players,
            final(self).weapons == old(self).weapons,
    {
        let ast = self.asteroids[asteroid];
        let n = self.bases.len();
        let mut i: usize = 0;
        while i < n
            invariant
                self.wf(),
                n == self.bases@.len() == old(self).bases@.len(),
                i <= n,
                asteroid < old(self).asteroids@.len(),
                self.asteroids == old(self).asteroids,
                self.players == old(self).players,
                self.weapons == old(self).weapons,
                ast == old(self).asteroids@[asteroid as int],
                forall|j: int| i <= j < n ==> self.bases@[j] == old(self).bases@[j],
                forall|j: int|
                    0 <= j < i ==> #[trigger] self.bases@[j] == {
                        let b = old(self).bases@[j];
                        if b.alive && b.asteroid == asteroid {
                            let p = sbase_pos(
                                ast.pos.x as int,
                                ast.pos.y as int,
                                ast.radius as int,
                                b.offset as int,
                                b.rot.c as int,
                                b.rot.s as int,
                            );
                            Base { pos: Vec2 { x: p.0 as i64, y: p.1 as i64 }, ..b }
                        } else {
                            b
                        }
                    },
            decreases n - i,
        {
            let b = self.bases[i];
            if b.alive && b.asteroid == asteroid {
                let pos = base_position(ast.pos, ast.radius, b.offset, b.rot);
                let bm = vstd::std_specs::vec::vec_index_mut(&mut self.bases, i);
                bm.pos = pos;
            }
            i = i + 1;
        }
    }

    /// Highlight exactly the base a new turn starts on: set its active
    /// flag and clear every other.
    pub fn set_active_base(&mut self, base: usize)
        requires
            old(self).wf(),
        ensures
            final(self).wf(),
            final(self).bases@.len() == old(self).bases@.len(),
            forall|i: int|
                0 <= i < final(self).bases@.len() ==> #[trigger] final(self).bases@[i] == (Base {
                    active: i == base,
                    ..old(self).bases@[i]
                }),
            final(self).asteroids == old(self).asteroids,
            final(self).players == old(self).players,
            final(self).weapons == old(self).weapons,
    {
        let n = self.bases.len();
        let mut i: usize = 0;
        while i < n
            invariant
                self.wf(),
                n == self.bases@.len() == old(self).bases@.len(),
                i <= n,
                self.asteroids == old(self).asteroids,
                self.players == old(self).players,
                self.weapons == old(self).weapons,
                forall|j: int| i <= j < n ==> self.bases@[j] == old(self).bases@[j],
                forall|j: int|
                    0 <= j < i ==> #[trigger] self.bases@[j] == (Base {
                        active: j == base,
                        ..old(self).bases@[j]
                    }),
            decreases n - i,
        {
            let bm = vstd::std_specs::vec::vec_index_mut(&mut self.bases, i);
            bm.active = i == base;
            i = i + 1;
        }
    }

    /// Mark a base destroyed and strike it from every player's owned list.
    pub fn destroy_base(&mut self, base: usize)
        requires
            old(self).wf(),
            base < old(self).bases@.len(),
        ensures
            final(self).wf(),
            final(self).bases@.len() == old(self).bases@.len(),
            final(self).bases@[base as int] == (Base { alive: false, ..old(self).bases@[base as int] }),
            forall|i: int|
                0 <= i < final(self).bases@.len() && i != base ==> final(self).bases@[i] == old(self).bases@[i],
            final(self).players@.len() == old(self).players@.len(),
            forall|p: int|
                0 <= p < final(self).players@.len() ==> splayer_same_but_bases(
                    #[trigger] final(self).players@[p],
                    old(self).players@[p],
                ) && final(self).players@[p].bases@ == old(
                    self,
                ).players@[p].bases@.remove_value(base),
            final(self).asteroids == old(self).asteroids,
            final(self).weapons == old(self).weapons,
    {
        let bm = vstd::std_specs::vec::vec_index_mut(&mut self.bases, base);
        bm.alive = false;
        let np = self.players.len();
        let mut p: usize = 0;
        while p < np
            invariant
                np == self.players@.len() == old(self).players@.len(),
                p <= np,
                base < old(self).bases@.len(),
                self.bases@.len() == old(self).bases@.len(),
                self.bases@[base as int] == (Base {
                    alive: false,
                    ..old(self).bases@[base as int]
                }),
                forall|i: int|
                    0 <= i < self.bases@.len() && i != base ==> self.bases@[i] == old(
                        self,
                    ).bases@[i],
                self.asteroids == old(self).asteroids,
                self.weapons == old(self).weapons,
                old(self).wf(),
                forall|q: int| p <= q < np ==> self.players@[q] == old(self).players@[q],
                forall|q: int|
                    0 <= q < p ==> splayer_same_but_bases(
                        #[trigger] self.players@[q],
                        old(self).players@[q],
                    ) && self.players@[q].bases@ == old(
                        self,
                    ).players@[q].bases@.remove_value(base),
            decreases np - p,
        {
            remove_owned_base(&mut self.players, p, base);
            p = p + 1;
        }
        proof {
            self.lemma_wf_after_destroy_base(*old(self), base as int);
        }
    }

    /// [`World::wf`] survives [`World::destroy_base`]'s field changes.
    proof fn lemma_wf_after_destroy_base(&self, pre: World, base: int)
        requires
            pre.wf(),
            0 <= base < pre.bases@.len(),
            self.bases@.len() == pre.bases@.len(),
            self.bases@[base] == (Base { alive: false, ..pre.bases@[base] }),
            forall|i: int|
                0 <= i < self.bases@.len() && i != base ==> self.bases@[i] == pre.bases@[i],
            self.players@.len() == pre.players@.len(),
            forall|p: int|
                0 <= p < self.players@.len() ==> splayer_same_but_bases(
                    #[trigger] self.players@[p],
                    pre.players@[p],
                ) && self.players@[p].bases@ == pre.players@[p].bases@.remove_value(
                    base as usize,
                ),
            self.asteroids == pre.asteroids,
            self.weapons == pre.weapons,
        ensures
            self.wf(),
    {
        assert forall|p: int|
            0 <= p < self.players@.len() implies (#[trigger] self.players@[p]).wf(
            self.bases@.len() as int,
        ) by {
            let ob = pre.players@[p].bases@;
            let nb = self.players@[p].bases@;
            ob.index_of_first_ensures(base as usize);
            match ob.index_of_first(base as usize) {
                Some(at) => {
                    assert(nb == ob.remove(at));
                    ob.remove_ensures(at);
                    assert forall|k1: int, k2: int|
                        0 <= k1 < k2 < nb.len() implies nb[k1] != nb[k2] by {
                        let o1: int = if k1 < at { k1 } else { k1 + 1 };
                        let o2: int = if k2 < at { k2 } else { k2 + 1 };
                        assert(nb[k1] == ob[o1] && nb[k2] == ob[o2] && o1 < o2);
                    }
                    assert forall|k: int| 0 <= k < nb.len() implies 0 <= #[trigger] nb[k]
                        < self.bases@.len() by {
                        if k < at {
                            assert(nb[k] == ob[k]);
                        } else {
                            assert(nb[k] == ob[k + 1]);
                        }
                    }
                },
                None => {
                    assert(nb == ob);
                },
            }
        }
        assert forall|p: int, k: int|
            0 <= p < self.players@.len() && 0 <= k < self.players@[p].bases@.len() implies {
            let b = #[trigger] self.players@[p].bases@[k];
            self.bases@[b as int].alive && self.bases@[b as int].player == p
        } by {
            let ob = pre.players@[p].bases@;
            let nb = self.players@[p].bases@;
            ob.index_of_first_ensures(base as usize);
            match ob.index_of_first(base as usize) {
                Some(at) => {
                    assert(nb == ob.remove(at));
                    ob.remove_ensures(at);
                    if k < at {
                        assert(nb[k] == ob[k]);
                        assert(ob[k] != ob[at]);
                    } else {
                        assert(nb[k] == ob[k + 1]);
                        assert(ob[k + 1] != ob[at]);
                    }
                    assert(nb[k] != base);
                },
                None => {
                    assert(nb == ob);
                    assert(ob[k] != base as usize);
                    assert(nb[k] != base);
                },
            }
        }
    }

    /// Remaining health of a base as a milli-fraction of full health
    /// (floored at zero): what a health bar shows.
    pub fn health_percent_milli(&self, base: usize) -> (r: i64)
        requires
            self.wf(),
            base < self.bases@.len(),
        ensures
            r == fdiv(vstd::math::max(self.bases@[base as int].health as int, 0), 100),
    {
        let h = self.bases[base].health;
        let hp = if h < 0 { 0 } else { h };
        div_trunc(hp as i128, 100) as i64
    }

    /// Current radius of an asteroid as a milli-fraction of its full
    /// radius: the visual scale of its sprite.
    pub fn scale_ratio_milli(&self, asteroid: usize) -> (r: i64)
        requires
            self.wf(),
            asteroid < self.asteroids@.len(),
        ensures
            r == fdiv(
                self.asteroids@[asteroid as int].radius as int * SCALE as int,
                self.asteroids@[asteroid as int].max_radius as int,
            ),
    {
        let a = self.asteroids[asteroid];
        div_trunc(a.radius as i128 * SCALE as i128, a.max_radius as i128) as i64
    }

    /// Bounding circles of the live asteroids, in slot order: the mass
    /// sources the gravity field and the collision pass read.
    pub fn live_circles(&self) -> (cs: Vec<Circle>)
        requires
            self.wf(),
        ensures
            cs@ == slive_circles(self.asteroids@, self.asteroids@.len() as int),
            cs@.len() <= self.asteroids@.len(),
            forall|i: int| 0 <= i < cs@.len() ==> (#[trigger] cs@[i]).wf(),
    {
        let mut cs: Vec<Circle> = Vec::new();
        let n = self.asteroids.len();
        let mut i: usize = 0;
        while i < n
            invariant
                self.wf(),
                n == self.asteroids@.len(),
                i <= n,
                cs@ == slive_circles(self.asteroids@, i as int),
                cs@.len() <= i,
                forall|j: int| 0 <= j < cs@.len() ==> (#[trigger] cs@[j]).wf(),
            decreases n - i,
        {
            let a = self.asteroids[i];
            if a.alive {
                cs.push(a.bound());
            }
            i = i + 1;
        }
        cs
    }
}

/// Compute a base's world position from its parent's centre and radius,
/// the base's inset and its orientation: the executable [`sbase_pos`].
pub fn base_position(ast_pos: Vec2, radius: i64, offset: i64, rot: Rot) -> (p: Vec2)
    requires
        -MAX_AST_COORD <= ast_pos.x <= MAX_AST_COORD,
        -MAX_AST_COORD <= ast_pos.y <= MAX_AST_COORD,
        0 <= radius <= MAX_RADIUS,
        -100_000 <= offset <= 100_000,
        rot.bounded(),
    ensures
        (p.x as int, p.y as int) == sbase_pos(
            ast_pos.x as int,
            ast_pos.y as int,
            radius as int,
            offset as int,
            rot.c as int,
            rot.s as int,
        ),
        p.in_bounds(),
{
    let k = radius - offset;
    proof {
        crate::fxp::lemma_mul_abs_bound(k as int, rot.s as int, 1_100_000, 1_000);
        crate::fxp::lemma_mul_abs_bound(k as int, rot.c as int, 1_100_000, 1_000);
        crate::fxp::lemma_fdiv_magnitude(k as int * rot.s as int, SCALE as int, 1_100_000);
        crate::fxp::lemma_fdiv_magnitude(k as int * rot.c as int, SCALE as int, 1_100_000);
    }
    let sx = div_trunc(k as i128 * rot.s as i128, SCALE as i128);
    let sy = div_trunc(k as i128 * rot.c as i128, SCALE as i128);
    Vec2 { x: ast_pos.x - sx as i64, y: ast_pos.y + sy as i64 }
}

/// Remove `base` from one player's owned list (first occurrence; the
/// registry invariant keeps the list duplicate-free).
fn remove_owned_base(players: &mut Vec<Player>, p: usize, base: usize)
    requires
        p < old(players)@.len(),
        forall|k1: int, k2: int|
            0 <= k1 < k2 < old(players)@[p as int].bases@.len() ==> old(
                players,
            )@[p as int].bases@[k1] != old(players)@[p as int].bases@[k2],
    ensures
        final(players)@.len() == old(players)@.len(),
        forall|q: int|
            0 <= q < final(players)@.len() && q != p ==> final(players)@[q] == old(players)@[q],
        splayer_same_but_bases(final(players)@[p as int], old(players)@[p as int]),
        final(players)@[p as int].bases@ == old(players)@[p as int].bases@.remove_value(base),
{
    let ghost ob = players@[p as int].bases@;
    let pos = find_first(&players[p].bases, base);
    match pos {
        Some(k) => {
            proof {
                ob.index_of_first_ensures(base);
                match ob.index_of_first(base) {
                    Some(at) => {
                        if at < k {
                            assert(ob[at] != base);
                        }
                        assert(at == k);
                    },
                    None => {
                        assert(ob.contains(ob[k as int]));
                    },
                }
                assert(ob.remove_value(base) == ob.remove(k as int));
            }
            let pl = vstd::std_specs::vec::vec_index_mut(players, p);
            pl.bases.remove(k);
        },
        None => {
            proof {
                ob.index_of_first_ensures(base);
                match ob.index_of_first(base) {
                    Some(at) => {
                        assert(ob[at] != base);
                    },
                    None => {},
                }
                assert(ob.remove_value(base) == ob);
            }
        },
    }
}

/// Index of the first occurrence of `val` in `list`, if any.
fn find_first(list: &Vec<usize>, val: usize) -> (r: Option<usize>)
    ensures
        match r {
            Some(k) => k < list@.len() && list@[k as int] == val && forall|j: int|
                0 <= j < k ==> list@[j] != val,
            None => forall|j: int| 0 <= j < list@.len() ==> list@[j] != val,
        },
{
    let n = list.len();
    let mut k: usize = 0;
    while k < n
        invariant
            n == list@.len(),
            k <= n,
            forall|j: int| 0 <= j < k ==> list@[j] != val,
        decreases n - k,
    {
        if list[k] == val {
            return Some(k);
        }
        k = k + 1;
    }
    None
}

} // verus!
