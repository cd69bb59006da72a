//! The kinematic integrator shared by the live projectile simulation and
//! the trajectory predictor.
//!
//! One step of `dt` milliseconds accumulates gravity into the velocity and
//! then moves by the updated velocity, clamping both into the world
//! coordinate range.  The predictor and the live simulation call the very
//! same step, so a predicted path is exactly the path a projectile flies.

use vstd::prelude::*;

use crate::consts::{MAX_COORD, SCALE, MAX_DT_MS, MAX_ASTEROIDS};
use crate::fxp::{fdiv, sclamp, div_trunc, clamp128};
use crate::vec2::Vec2;
use crate::geom::Circle;
use crate::gravity::{sgrav_total, gravity_accel};

verus! {

/// Velocity after one step: thrust plus gravity integrated over `dt`,
/// clamped componentwise.
pub open spec fn sstep_thrust(asts: Seq<Circle>, px: int, py: int, tx: int, ty: int, dt: int) -> (
    int,
    int,
) {
    let g = sgrav_total(asts, px, py);
    (
        sclamp(tx + fdiv(g.0 * dt, SCALE as int), -MAX_COORD as int, MAX_COORD as int),
        sclamp(ty + fdiv(g.1 * dt, SCALE as int), -MAX_COORD as int, MAX_COORD as int),
    )
}

/// One whole step: `(new_pos_x, new_pos_y, new_thrust_x, new_thrust_y)`.
/// The position moves by the updated thrust.
pub open spec fn sstep(asts: Seq<Circle>, px: int, py: int, tx: int, ty: int, dt: int) -> (
    int,
    int,
    int,
    int,
) {
    let t = sstep_thrust(asts, px, py, tx, ty, dt);
    (
        sclamp(px + fdiv(t.0 * dt, SCALE as int), -MAX_COORD as int, MAX_COORD as int),
        sclamp(py + fdiv(t.1 * dt, SCALE as int), -MAX_COORD as int, MAX_COORD as int),
        t.0,
        t.1,
    )
}

/// State after `n` steps of `dt` from the given start.
pub open spec fn strajectory(
    asts: Seq<Circle>,
    px: int,
    py: int,
    tx: int,
    ty: int,
    dt: int,
    n: int,
) -> (int, int, int, int)
    decreases n,
{
    if n <= 0 {
        (px, py, tx, ty)
    } else {
        let prev = strajectory(asts, px, py, tx, ty, dt, n - 1);
        sstep(asts, prev.0, prev.1, prev.2, prev.3, dt)
    }
}

/// One integration step over the live asteroid field, the executable form
/// of [`sstep`].
pub fn step_kinematics(asteroids: &Vec<Circle>, pos: Vec2, thrust: Vec2, dt: i64) -> (r: (
    Vec2,
    Vec2,
))
    requires
        forall|i: int| 0 <= i < asteroids@.len() ==> (#[trigger] asteroids@[i]).wf(),
        asteroids@.len() <= MAX_ASTEROIDS,
        pos.in_bounds(),
        thrust.in_bounds(),
        0 <= dt <= MAX_DT_MS,
    ensures
        ({
            let st = sstep(asteroids@, pos.x as int, pos.y as int, thrust.x as int,
                thrust.y as int, dt as int);
            r.0.x == st.0 && r.0.y == st.1 && r.1.x == st.2 && r.1.y == st.3
        }),
        r.0.in_bounds(),
        r.1.in_bounds(),
{
    let g = gravity_accel(asteroids, pos);
    proof {
        crate::fxp::lemma_mul_abs_bound(g.x as int, dt as int, 192_000_000_000, 1_000);
        crate::fxp::lemma_mul_abs_bound(g.y as int, dt as int, 192_000_000_000, 1_000);
        crate::fxp::lemma_fdiv_within(g.x as int * dt as int, SCALE as int);
        crate::fxp::lemma_fdiv_within(g.y as int * dt as int, SCALE as int);
    }
    let tx = clamp128(
        thrust.x as i128 + div_trunc(g.x as i128 * dt as i128, SCALE as i128),
        -MAX_COORD,
        MAX_COORD,
    );
    let ty = clamp128(
        thrust.y as i128 + div_trunc(g.y as i128 * dt as i128, SCALE as i128),
        -MAX_COORD,
        MAX_COORD,
    );
    proof {
        crate::fxp::lemma_mul_abs_bound(tx as int, dt as int, 1_000_000_000, 1_000);
        crate::fxp::lemma_mul_abs_bound(ty as int, dt as int, 1_000_000_000, 1_000);
        crate::fxp::lemma_fdiv_within(tx as int * dt as int, SCALE as int);
        crate::fxp::lemma_fdiv_within(ty as int * dt as int, SCALE as int);
    }
    let px = clamp128(
        pos.x as i128 + div_trunc(tx as i128 * dt as i128, SCALE as i128),
        -MAX_COORD,
        MAX_COORD,
    );
    let py = clamp128(
        pos.y as i128 + div_trunc(ty as i128 * dt as i128, SCALE as i128),
        -MAX_COORD,
        MAX_COORD,
    );
    (Vec2 { x: px, y: py }, Vec2 { x: tx, y: ty })
}

/// The predictor agrees with the live simulation: any chain of states in
/// which each entry is one [`sstep`] from the one before it follows
/// [`strajectory`] from its first entry, step for step.
pub proof fn lemma_trajectory_matches_stepping(
    asts: Seq<Circle>,
    states: Seq<(int, int, int, int)>,
    dt: int,
    i: int,
)
    requires
        states.len() >= 1,
        forall|j: int|
            0 <= j < states.len() - 1 ==> #[trigger] states[j + 1] == sstep(
                asts,
                states[j].0,
                states[j].1,
                states[j].2,
                states[j].3,
                dt,
            ),
        0 <= i < states.len(),
    ensures
        states[i] == strajectory(
            asts,
            states[0].0,
            states[0].1,
            states[0].2,
            states[0].3,
            dt,
            i,
        ),
    decreases i,
{
    if i > 0 {
        lemma_trajectory_matches_stepping(asts, states, dt, i - 1);
        assert(states[(i - 1) + 1] == sstep(
            asts,
            states[i - 1].0,
            states[i - 1].1,
            states[i - 1].2,
            states[i - 1].3,
            dt,
        ));
    }
}

} // verus!
