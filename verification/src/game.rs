//! The assembled game: registry, turn state, player order and the
//! fixed-tick driver.
//!
//! One call of [`Game::tick`] performs, in order: input-driven aim and
//! power adjustment; fire-intent processing (possibly spawning a
//! projectile); one kinematic step of every live projectile with its fuel
//! countdown; collision checks; damage and destruction from this tick's
//! explosions; and the turn-end and victory evaluation.  Trajectory
//! prediction ([`crate::predict`]) is a read-only query beside it.

use vstd::prelude::*;

use crate::consts::{MAX_DT_MS, HALF_PI_MRAD, POWER_MIN, POWER_MAX, POWER_DEFAULT, LAUNCH_OFFSET};
use crate::fxp::sclamp;
use crate::entities::{World, Base, slive_circles, splayer_same_but_bases};
use crate::events::{Event, Explode};
use crate::turn::{TurnState, TurnPhase};
use crate::player::{PlayerOrder, next_turn, victory_check, snext_live, scount_owners};
use crate::weapon::{Launch, WeaponType, launching_system, weapon_move_update, weapon_fuel_update,
    weapon_collide_update, any_active_weapon, sspawn_all, smove_all, sfuel_kept, sfuel_events,
    scollide_kept, scollide_events, shas_active};
use crate::damage::{damage_base, damage_asteroid, sexplode_wf, sbases_after_all, sasts_after_all,
    sbases_after_ast_all, sbase_destroy_events, sast_events, sprune_bases, sprune_cascade};

verus! {

/// The decoded intents one tick consumes.
#[derive(Clone, Copy, PartialEq, Eq, Structural, Debug)]
pub struct TickInput {
    /// Change of the firing angle, milli-radians.
    pub aim_delta: i64,
    /// Change of the firing power, milli-units per second.
    pub power_delta: i64,
    /// Whether a fire request was submitted this tick.
    pub fire: bool,
}

impl TickInput {
    pub open spec fn wf(self) -> bool {
        -1_000_000 <= self.aim_delta <= 1_000_000 && -1_000_000 <= self.power_delta <= 1_000_000
    }
}

/// A whole running game.
pub struct Game {
    pub world: World,
    pub turn: TurnState,
    pub order: PlayerOrder,
    /// Set once the victory condition has fired; later ticks do nothing.
    pub over: bool,
    /// The winning player, when the game ended with one; `None` while the
    /// game runs or after a draw.
    pub winner: Option<usize>,
}

/// The turn state after the tick's aim and power adjustments.
pub open spec fn sadjusted(t: TurnState, input: TickInput) -> TurnState {
    if t.phase == TurnPhase::Aiming {
        TurnState {
            firing_angle: sclamp(
                t.firing_angle + input.aim_delta,
                -HALF_PI_MRAD as int,
                HALF_PI_MRAD as int,
            ) as i64,
            power: sclamp(t.power + input.power_delta, POWER_MIN as int, POWER_MAX as int) as i64,
            ..t
        }
    } else {
        t
    }
}

/// The launch a fire request emits from the given turn state.
pub open spec fn slaunch_of(t: TurnState) -> Launch {
    Launch {
        angle: sclamp(t.firing_angle as int, -HALF_PI_MRAD as int, HALF_PI_MRAD as int) as i64,
        offset: LAUNCH_OFFSET,
        thrust: sclamp(t.power as int, POWER_MIN as int, POWER_MAX as int) as i64,
        parent: t.active_base.unwrap(),
        weapon_type: WeaponType::Rocket,
    }
}

/// The turn state after observing whether a turn-consuming weapon flies.
pub open spec fn sphase_update(t: TurnState, active: bool) -> TurnState {
    if t.phase == TurnPhase::Firing && !active {
        TurnState { phase: TurnPhase::Aiming, ..t }
    } else if t.phase == TurnPhase::Aiming && active {
        TurnState { phase: TurnPhase::Firing, ..t }
    } else {
        t
    }
}

/// The explosions among the first `n` events (a detonation event carries
/// its position and power).
pub open spec fn sexplosions_of(evs: Seq<Event>, n: int) -> Seq<Explode>
    decreases n,
{
    if n <= 0 {
        Seq::empty()
    } else {
        let pre = sexplosions_of(evs, n - 1);
        match evs[n - 1] {
            Event::Exploded { pos, power } => pre.push(Explode { pos, power }),
            _ => pre,
        }
    }
}

/// Extract this tick's explosions from the collision events, the
/// executable form of [`sexplosions_of`].
fn explosions_of(evs: &Vec<Event>) -> (r: Vec<Explode>)
    ensures
        r@ == sexplosions_of(evs@, evs@.len() as int),
        r@.len() <= evs@.len(),
{
    let mut r: Vec<Explode> = Vec::new();
    let n = evs.len();
    let mut i: usize = 0;
    while i < n
        invariant
            n == evs@.len(),
            i <= n,
            r@ == sexplosions_of(evs@, i as int),
            r@.len() <= i,
        decreases n - i,
    {
        match evs[i] {
            Event::Exploded { pos, power } => {
                r.push(Explode { pos, power });
            },
            _ => {},
        }
        i = i + 1;
    }
    r
}

/// Every detonation event of the collision pass carries an in-bounds
/// position and the fixed blast power.
proof fn lemma_scollide_events_wf(asts: Seq<crate::geom::Circle>, ws: Seq<crate::weapon::Weapon>, n: int)
    requires
        forall|i: int| 0 <= i < ws.len() ==> (#[trigger] ws[i]).wf(),
        0 <= n <= ws.len(),
    ensures
        scollide_events(asts, ws, n).len() <= 2 * n,
        forall|j: int|
            0 <= j < scollide_events(asts, ws, n).len() ==> ((#[trigger] scollide_events(
                asts,
                ws,
                n,
            )[j]) matches Event::Exploded { pos, power } ==> pos.in_bounds() && power
                == crate::consts::EXPLODE_POWER),
    decreases n,
{
    if n > 0 {
        lemma_scollide_events_wf(asts, ws, n - 1);
    }
}

/// Explosions extracted from such events are well-formed.
proof fn lemma_sexplosions_wf(evs: Seq<Event>, n: int)
    requires
        0 <= n <= evs.len(),
        forall|j: int|
            0 <= j < evs.len() ==> ((#[trigger] evs[j]) matches Event::Exploded { pos, power }
                ==> pos.in_bounds() && power == crate::consts::EXPLODE_POWER),
    ensures
        sexplosions_of(evs, n).len() <= n,
        forall|k: int|
            0 <= k < sexplosions_of(evs, n).len() ==> sexplode_wf(
                #[trigger] sexplosions_of(evs, n)[k],
            ),
    decreases n,
{
    if n > 0 {
        lemma_sexplosions_wf(evs, n - 1);
    }
}

/// Whether the tick produced a turn-end among the first events.
fn contains_turn_end(evs: &Vec<Event>) -> (r: bool)
    ensures
        r == evs@.contains(Event::TurnEnd),
{
    let n = evs.len();
    let mut i: usize = 0;
    while i < n
        invariant
            n == evs@.len(),
            i <= n,
            forall|j: int| 0 <= j < i ==> evs@[j] != Event::TurnEnd,
        decreases n - i,
    {
        match evs[i] {
            Event::TurnEnd => {
                proof {
                    assert(evs@[i as int] == Event::TurnEnd);
                }
                return true;
            },
            _ => {},
        }
        i = i + 1;
    }
    proof {
        if evs@.contains(Event::TurnEnd) {
            let w = choose|w: int| 0 <= w < evs@.len() && evs@[w] == Event::TurnEnd;
            assert(evs@[w] != Event::TurnEnd);
        }
    }
    false
}

/// Whether any base was destroyed among the given events.
fn contains_base_destroyed(evs: &Vec<Event>) -> (r: bool)
    ensures
        r == exists|j: int|
            0 <= j < evs@.len() && (#[trigger] evs@[j]) matches Event::BaseDestroyed { .. },
{
    let n = evs.len();
    let mut i: usize = 0;
    while i < n
        invariant
            n == evs@.len(),
            i <= n,
            forall|j: int|
                0 <= j < i ==> !((#[trigger] evs@[j]) matches Event::BaseDestroyed { .. }),
        decreases n - i,
    {
        match evs[i] {
            Event::BaseDestroyed { .. } => {
                proof {
                    assert(evs@[i as int] matches Event::BaseDestroyed { .. });
                }
                return true;
            },
            _ => {},
        }
        i = i + 1;
    }
    false
}

/// Stages of one tick, as functions of the pre-tick state: the turn
/// state after input handling, after the fire intent, the launches, the
/// weapon arena through spawning, moving, fuel and collisions, the
/// explosions, the damaged bases and asteroids, and the tick's events.
pub open spec fn spipe_t1(t0: TurnState, input: TickInput) -> TurnState {
    sadjusted(t0, input)
}

/// Whether the tick's fire intent goes through.
pub open spec fn spipe_fire(t0: TurnState, input: TickInput) -> bool {
    input.fire && spipe_t1(t0, input).phase == TurnPhase::Aiming && spipe_t1(
        t0,
        input,
    ).active_base.is_some()
}

pub open spec fn spipe_t2(t0: TurnState, input: TickInput) -> TurnState {
    if spipe_fire(t0, input) {
        TurnState { phase: TurnPhase::Firing, ..spipe_t1(t0, input) }
    } else {
        spipe_t1(t0, input)
    }
}

pub open spec fn spipe_launches(t0: TurnState, input: TickInput) -> Seq<Launch> {
    if spipe_fire(t0, input) {
        seq![slaunch_of(spipe_t1(t0, input))]
    } else {
        Seq::<Launch>::empty()
    }
}

pub open spec fn spipe_circ(w0: World) -> Seq<crate::geom::Circle> {
    slive_circles(w0.asteroids@, w0.asteroids@.len() as int)
}

pub open spec fn spipe_ws1(w0: World, t0: TurnState, input: TickInput) -> Seq<
    crate::weapon::Weapon,
> {
    sspawn_all(
        w0.bases@,
        w0.weapons@,
        spipe_launches(t0, input),
        spipe_launches(t0, input).len() as int,
    )
}

pub open spec fn spipe_ws2(w0: World, t0: TurnState, input: TickInput, dt: int) -> Seq<
    crate::weapon::Weapon,
> {
    smove_all(spipe_circ(w0), spipe_ws1(w0, t0, input), dt)
}

pub open spec fn spipe_ws3(w0: World, t0: TurnState, input: TickInput, dt: int) -> Seq<
    crate::weapon::Weapon,
> {
    sfuel_kept(spipe_ws2(w0, t0, input, dt), dt, spipe_ws2(w0, t0, input, dt).len() as int)
}

pub open spec fn spipe_evf(w0: World, t0: TurnState, input: TickInput, dt: int) -> Seq<Event> {
    sfuel_events(spipe_ws2(w0, t0, input, dt), dt, spipe_ws2(w0, t0, input, dt).len() as int)
}

pub open spec fn spipe_ws4(w0: World, t0: TurnState, input: TickInput, dt: int) -> Seq<
    crate::weapon::Weapon,
> {
    scollide_kept(
        spipe_circ(w0),
        spipe_ws3(w0, t0, input, dt),
        spipe_ws3(w0, t0, input, dt).len() as int,
    )
}

pub open spec fn spipe_evc(w0: World, t0: TurnState, input: TickInput, dt: int) -> Seq<Event> {
    scollide_events(
        spipe_circ(w0),
        spipe_ws3(w0, t0, input, dt),
        spipe_ws3(w0, t0, input, dt).len() as int,
    )
}

pub open spec fn spipe_exps(w0: World, t0: TurnState, input: TickInput, dt: int) -> Seq<Explode> {
    sexplosions_of(spipe_evc(w0, t0, input, dt), spipe_evc(w0, t0, input, dt).len() as int)
}

pub open spec fn spipe_bases5(w0: World, t0: TurnState, input: TickInput, dt: int) -> Seq<Base> {
    sbases_after_all(w0.bases@, spipe_exps(w0, t0, input, dt))
}

pub open spec fn spipe_evb(w0: World, t0: TurnState, input: TickInput, dt: int) -> Seq<Event> {
    sbase_destroy_events(w0.bases@, spipe_exps(w0, t0, input, dt), w0.bases@.len() as int)
}

pub open spec fn spipe_asts6(w0: World, t0: TurnState, input: TickInput, dt: int) -> Seq<
    crate::entities::Asteroid,
> {
    sasts_after_all(w0.asteroids@, spipe_exps(w0, t0, input, dt))
}

pub open spec fn spipe_bases6(w0: World, t0: TurnState, input: TickInput, dt: int) -> Seq<Base> {
    sbases_after_ast_all(
        spipe_bases5(w0, t0, input, dt),
        w0.asteroids@,
        spipe_exps(w0, t0, input, dt),
    )
}

pub open spec fn spipe_eva(w0: World, t0: TurnState, input: TickInput, dt: int) -> Seq<Event> {
    sast_events(
        spipe_bases5(w0, t0, input, dt),
        w0.asteroids@,
        spipe_exps(w0, t0, input, dt),
        w0.asteroids@.len() as int,
    )
}

/// The tick's main event log, before any turn-start or game-over tail.
pub open spec fn spipe_evmain(w0: World, t0: TurnState, input: TickInput, dt: int) -> Seq<Event> {
    spipe_evf(w0, t0, input, dt) + spipe_evc(w0, t0, input, dt) + spipe_evb(w0, t0, input, dt)
        + spipe_eva(w0, t0, input, dt)
}

/// The turn state after the phase observation.
pub open spec fn spipe_t3(w0: World, t0: TurnState, input: TickInput, dt: int) -> TurnState {
    sphase_update(spipe_t2(t0, input), shas_active(spipe_ws4(w0, t0, input, dt)))
}

/// One player's owned-base list after the tick's destruction.
pub open spec fn spipe_player_bases(
    w0: World,
    t0: TurnState,
    input: TickInput,
    dt: int,
    p: int,
) -> Seq<usize> {
    sprune_cascade(
        sprune_bases(
            w0.players@[p].bases@,
            w0.bases@,
            spipe_exps(w0, t0, input, dt),
            w0.bases@.len() as int,
        ),
        spipe_bases5(w0, t0, input, dt),
        w0.asteroids@,
        spipe_exps(w0, t0, input, dt),
        w0.asteroids@.len() as int,
    )
}

/// Whether the tick destroyed any base.
pub open spec fn spipe_destroyed(w0: World, t0: TurnState, input: TickInput, dt: int) -> bool {
    (exists|j: int|
        0 <= j < spipe_evb(w0, t0, input, dt).len() && (#[trigger] spipe_evb(
            w0,
            t0,
            input,
            dt,
        )[j]) matches Event::BaseDestroyed { .. }) || (exists|j: int|
        0 <= j < spipe_eva(w0, t0, input, dt).len() && (#[trigger] spipe_eva(
            w0,
            t0,
            input,
            dt,
        )[j]) matches Event::BaseDestroyed { .. })
}

/// Whether the tick ended the turn (a turn-consuming weapon resolved).
pub open spec fn spipe_turn_ended(w0: World, t0: TurnState, input: TickInput, dt: int) -> bool {
    spipe_evf(w0, t0, input, dt).contains(Event::TurnEnd) || spipe_evc(
        w0,
        t0,
        input,
        dt,
    ).contains(Event::TurnEnd)
}

/// Whether this tick fires the victory condition: a base was destroyed
/// and at most one player still owns one.
pub open spec fn spipe_game_over(g0: Game, input: TickInput, dt: int, g1: Game) -> bool {
    spipe_destroyed(g0.world, g0.turn, input, dt) && scount_owners(
        g1.world.players@,
        g1.world.players@.len() as int,
    ) <= 1
}

/// Whether this tick advances to a new turn: the turn ended and the
/// rotation found a player who still owns a base.
pub open spec fn spipe_advance(g0: Game, input: TickInput, dt: int, g1: Game) -> bool {
    spipe_turn_ended(g0.world, g0.turn, input, dt) && snext_live(
        g1.world.players@,
        g0.order.order@,
        g0.order.current as int,
        1,
    ).is_some()
}

impl Game {
    /// Everything a running game maintains between ticks.
    pub open spec fn wf(self) -> bool {
        self.world.wf() && self.world.healthy() && self.turn.wf() && self.order.wf(
            self.world.players@.len() as int,
        )
    }

    /// A fresh game with the standard arrangement: two players, three
    /// asteroids, four bases (two per player), and the first turn started
    /// on the first player's first base.
    pub fn new_standard() -> (r: (Game, Vec<Event>))
        ensures
            r.0.wf(),
            !r.0.over,
            r.0.world.asteroids@.len() == 3,
            r.0.world.bases@.len() == 4,
            r.0.world.players@.len() == 2,
            r.0.world.weapons@.len() == 0,
            r.0.world.players@[0].bases@ == seq![0usize, 2usize],
            r.0.world.players@[1].bases@ == seq![1usize, 3usize],
            r.0.turn.phase == TurnPhase::Aiming,
            r.0.turn.active_base == Some(0usize),
            r.0.turn.power == POWER_DEFAULT,
            r.0.turn.firing_angle == 0,
            r.1@ == seq![Event::TurnStart { base: 0usize }],
    {
        let mut world = World::new();
        let _players = world.setup_players();
        let a0 = world.add_asteroid(0, -215_000);
        let a1 = world.add_asteroid(-60_000, 0);
        let a2 = world.add_asteroid(60_000, 0);
        let b0 = world.add_base(a0, 0, 0);
        let b1 = world.add_base(a0, 1, 1_000);
        let b2 = world.add_base(a1, 0, 2_000);
        let b3 = world.add_base(a2, 1, 3_000);
        world.set_active_base(b0);
        let mut order = PlayerOrder { order: Vec::new(), current: 0 };
        order.order.push(0);
        order.order.push(1);
        let mut turn = TurnState::new();
        turn.turn_start(b0);
        let mut events: Vec<Event> = Vec::new();
        events.push(Event::TurnStart { base: b0 });
        proof {
            assert(world.players@[0].bases@ == seq![0usize, 2usize]);
            assert(world.players@[1].bases@ == seq![1usize, 3usize]);
            assert(events@ == seq![Event::TurnStart { base: 0usize }]);
        }
        (Game { world, turn, order, over: false, winner: None }, events)
    }

    /// One simulation tick: apply the decoded input, advance and resolve
    /// every projectile, apply damage, and evaluate turn end and victory.
    /// After the game is over a tick changes nothing and reports nothing.
    #[verifier::rlimit(100)]
    #[verifier::spinoff_prover]
    pub fn tick(&mut self, input: TickInput, dt: i64) -> (events: Vec<Event>)
        requires
            old(self).wf(),
            input.wf(),
            0 <= dt <= MAX_DT_MS,
        ensures
            final(self).wf(),
            old(self).over ==> final(self).world == old(self).world && final(self).turn == old(self).turn && final(self).order.order@ == old(self).order.order@ && final(self).order.current
                == old(self).order.current && final(self).over == old(self).over && final(self).winner == old(self).winner && events@ == Seq::<Event>::empty(),
            !old(self).over ==> final(self).world.asteroids@ == spipe_asts6(
                old(self).world,
                old(self).turn,
                input,
                dt as int,
            ),
            !old(self).over ==> final(self).world.weapons@ == spipe_ws4(
                old(self).world,
                old(self).turn,
                input,
                dt as int,
            ),
            !old(self).over ==> final(self).world.players@.len() == old(self).world.players@.len(),
            !old(self).over ==> forall|p: int|
                0 <= p < old(self).world.players@.len() ==> (#[trigger] final(self).world.players@[p]).bases@ == spipe_player_bases(
                    old(self).world,
                    old(self).turn,
                    input,
                    dt as int,
                    p,
                ),
            !old(self).over ==> final(self).order.order@ == old(self).order.order@,
            !old(self).over && spipe_game_over(*old(self), input, dt as int, *final(self)) ==> {
                &&& final(self).over
                &&& final(self).world.bases@ == spipe_bases6(
                    old(self).world,
                    old(self).turn,
                    input,
                    dt as int,
                )
                &&& final(self).turn == spipe_t3(old(self).world, old(self).turn, input, dt as int)
                &&& events@ == spipe_evmain(old(self).world, old(self).turn, input, dt as int).push(
                    Event::GameOver { winner: final(self).winner },
                )
                &&& match final(self).winner {
                    Some(p) => p < final(self).world.players@.len() && final(self).world.players@[p as int].bases@.len() > 0,
                    None => forall|q: int|
                        0 <= q < final(self).world.players@.len() ==> final(self).world.players@[q].bases@.len() == 0,
                }
                &&& forall|p: int|
                    0 <= p < old(self).world.players@.len() ==> splayer_same_but_bases(
                        #[trigger] final(self).world.players@[p],
                        old(self).world.players@[p],
                    )
            },
            !old(self).over && !spipe_game_over(*old(self), input, dt as int, *final(self))
                && spipe_advance(*old(self), input, dt as int, *final(self)) ==> ({
                let j = snext_live(
                    final(self).world.players@,
                    old(self).order.order@,
                    old(self).order.current as int,
                    1,
                ).unwrap();
                let pid = old(self).order.order@[j];
                let nb = final(self).world.players@[pid as int].bases@;
                let cb = if old(self).world.players@[pid as int].current_base + 1 >= nb.len() {
                    0int
                } else {
                    old(self).world.players@[pid as int].current_base + 1
                };
                let b = nb[cb];
                &&& !final(self).over
                &&& final(self).winner == old(self).winner
                &&& final(self).order.current == j
                &&& final(self).world.players@[pid as int].current_base == cb
                &&& forall|p: int|
                    0 <= p < old(self).world.players@.len() && p != pid ==> splayer_same_but_bases(
                        #[trigger] final(self).world.players@[p],
                        old(self).world.players@[p],
                    )
                &&& forall|i: int|
                    0 <= i < final(self).world.bases@.len() ==> #[trigger] final(self).world.bases@[i] == (Base {
                        active: i == b,
                        ..spipe_bases6(old(self).world, old(self).turn, input, dt as int)[i]
                    })
                &&& final(self).turn.phase == TurnPhase::Aiming
                &&& final(self).turn.active_base == Some(b)
                &&& final(self).turn.firing_angle == 0
                &&& final(self).turn.power == POWER_DEFAULT
                &&& events@ == spipe_evmain(old(self).world, old(self).turn, input, dt as int).push(
                    Event::TurnStart { base: b },
                )
            }),
            !old(self).over && !spipe_game_over(*old(self), input, dt as int, *final(self))
                && !spipe_advance(*old(self), input, dt as int, *final(self)) ==> {
                &&& !final(self).over
                &&& final(self).winner == old(self).winner
                &&& final(self).order.current == old(self).order.current
                &&& final(self).world.bases@ == spipe_bases6(
                    old(self).world,
                    old(self).turn,
                    input,
                    dt as int,
                )
                &&& final(self).turn == spipe_t3(old(self).world, old(self).turn, input, dt as int)
                &&& events@ == spipe_evmain(old(self).world, old(self).turn, input, dt as int)
                &&& forall|p: int|
                    0 <= p < old(self).world.players@.len() ==> splayer_same_but_bases(
                        #[trigger] final(self).world.players@[p],
                        old(self).world.players@[p],
                    )
            },
    {
        if self.over {
            return Vec::new();
        }
        let mut events: Vec<Event> = Vec::new();
        self.turn.adjust_aim(input.aim_delta);
        self.turn.adjust_power(input.power_delta);
        proof {
            assert(self.turn == sadjusted(old(self).turn, input));
        }
        let ghost t1g = self.turn;
        let mut launches: Vec<Launch> = Vec::new();
        if input.fire {
            match self.turn.fire_request() {
                Some(l) => launches.push(l),
                None => {},
            }
        }
        let ghost t2g = self.turn;
        proof {
            let fire_ok = input.fire && t1g.phase == TurnPhase::Aiming
                && t1g.active_base.is_some();
            if fire_ok {
                assert(launches@ == seq![slaunch_of(t1g)]);
            } else {
                assert(launches@ == Seq::<Launch>::empty());
            }
        }
        launching_system(&mut self.world, &launches);
        let circles = self.world.live_circles();
        weapon_move_update(&mut self.world, &circles, dt);
        let ghost ws2g = self.world.weapons@;
        let mut ev_fuel = weapon_fuel_update(&mut self.world, dt);
        let ghost ws3g = self.world.weapons@;
        let mut ev_col = weapon_collide_update(&mut self.world, &circles);
        proof {
            lemma_scollide_events_wf(circles@, ws3g, ws3g.len() as int);
            lemma_sexplosions_wf(ev_col@, ev_col@.len() as int);
        }
        let explosions = explosions_of(&ev_col);
        let mut ev_base = damage_base(&mut self.world, &explosions);
        let mut ev_ast = damage_asteroid(&mut self.world, &explosions);
        let turn_ended = contains_turn_end(&ev_fuel) || contains_turn_end(&ev_col);
        let mut destroyed_any = contains_base_destroyed(&ev_base);
        if !destroyed_any {
            destroyed_any = contains_base_destroyed(&ev_ast);
        }
        let ghost evfg = ev_fuel@;
        let ghost evcg = ev_col@;
        let ghost evbg = ev_base@;
        let ghost evag = ev_ast@;
        events.append(&mut ev_fuel);
        events.append(&mut ev_col);
        events.append(&mut ev_base);
        events.append(&mut ev_ast);
        proof {
            assert(events@ =~= evfg + evcg + evbg + evag);
        }
        let has_active = any_active_weapon(&self.world);
        let _ = self.turn.turn_phase_update(has_active);
        proof {
            assert(self.turn == sphase_update(t2g, shas_active(self.world.weapons@)));
        }
        let ghost post_players = self.world.players@;
        if destroyed_any {
            let (owners, first_owner) = victory_check(&self.world);
            if owners <= 1 {
                self.over = true;
                self.winner = first_owner;
                events.push(Event::GameOver { winner: first_owner });
                return events;
            }
        }
        if turn_ended {
            match next_turn(&mut self.order, &mut self.world) {
                Some(b) => {
                    self.world.set_active_base(b);
                    self.turn.turn_start(b);
                    events.push(Event::TurnStart { base: b });
                    proof {
                        crate::player::lemma_snext_live_same_bases(
                            self.world.players@,
                            post_players,
                            old(self).order.order@,
                            old(self).order.current as int,
                            1,
                        );
                        crate::player::lemma_scount_same_bases(
                            self.world.players@,
                            post_players,
                            self.world.players@.len() as int,
                        );
                    }
                },
                None => {},
            }
        }
        events
    }
}

} // verus!
