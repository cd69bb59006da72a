//! The trajectory predictor used for aim preview.
//!
//! A pure forward simulation of a hypothetical shot: it integrates the
//! same gravity formula with the same step as the live projectile
//! simulation ([`crate::sim`]), against scratch state, never touching live
//! entities — so the preview is exactly the path a projectile would fly.

use vstd::prelude::*;

use crate::consts::{MAX_ASTEROIDS, PREDICT_STEP_MS};
use crate::fxp::fdiv;
use crate::vec2::Vec2;
use crate::geom::Circle;
use crate::sim::{strajectory, step_kinematics};

verus! {

/// Position `length_ms` ahead of a launch from `start` with
/// `initial_thrust`, after `length_ms / PREDICT_STEP_MS` fixed steps of
/// the shared integrator.
pub fn calculate_position(
    asteroids: &Vec<Circle>,
    start: Vec2,
    length_ms: i64,
    initial_thrust: Vec2,
) -> (p: Vec2)
    requires
        forall|i: int| 0 <= i < asteroids@.len() ==> (#[trigger] asteroids@[i]).wf(),
        asteroids@.len() <= MAX_ASTEROIDS,
        start.in_bounds(),
        initial_thrust.in_bounds(),
        0 <= length_ms <= 600_000,
    ensures
        ({
            let t = strajectory(
                asteroids@,
                start.x as int,
                start.y as int,
                initial_thrust.x as int,
                initial_thrust.y as int,
                PREDICT_STEP_MS as int,
                fdiv(length_ms as int, PREDICT_STEP_MS as int),
            );
            p.x == t.0 && p.y == t.1
        }),
        p.in_bounds(),
{
    let step_num = (length_ms / PREDICT_STEP_MS) as usize;
    proof {
        assert(length_ms as int / (PREDICT_STEP_MS as int) == fdiv(
            length_ms as int,
            PREDICT_STEP_MS as int,
        ));
    }
    let mut pos = start;
    let mut thrust = initial_thrust;
    let mut i: usize = 0;
    while i < step_num
        invariant
            forall|j: int| 0 <= j < asteroids@.len() ==> (#[trigger] asteroids@[j]).wf(),
            asteroids@.len() <= MAX_ASTEROIDS,
            i <= step_num,
            pos.in_bounds(),
            thrust.in_bounds(),
            ({
                let t = strajectory(
                    asteroids@,
                    start.x as int,
                    start.y as int,
                    initial_thrust.x as int,
                    initial_thrust.y as int,
                    PREDICT_STEP_MS as int,
                    i as int,
                );
                pos.x == t.0 && pos.y == t.1 && thrust.x == t.2 && thrust.y == t.3
            }),
        decreases step_num - i,
    {
        let (np, nt) = step_kinematics(asteroids, pos, thrust, PREDICT_STEP_MS);
        pos = np;
        thrust = nt;
        i = i + 1;
    }
    pos
}

/// The preview path: one position per elapsed multiple of the predictor
/// step, `duration_ms / PREDICT_STEP_MS` of them, in time order.
pub fn predict_path(
    asteroids: &Vec<Circle>,
    start: Vec2,
    initial_thrust: Vec2,
    duration_ms: i64,
) -> (path: Vec<Vec2>)
    requires
        forall|i: int| 0 <= i < asteroids@.len() ==> (#[trigger] asteroids@[i]).wf(),
        asteroids@.len() <= MAX_ASTEROIDS,
        start.in_bounds(),
        initial_thrust.in_bounds(),
        0 <= duration_ms <= 600_000,
    ensures
        path@.len() == fdiv(duration_ms as int, PREDICT_STEP_MS as int),
        forall|i: int|
            0 <= i < path@.len() ==> {
                let t = strajectory(
                    asteroids@,
                    start.x as int,
                    start.y as int,
                    initial_thrust.x as int,
                    initial_thrust.y as int,
                    PREDICT_STEP_MS as int,
                    i + 1,
                );
                (#[trigger] path@[i]).x == t.0 && path@[i].y == t.1
            },
{
    let step_num = (duration_ms / PREDICT_STEP_MS) as usize;
    proof {
        assert(duration_ms as int / (PREDICT_STEP_MS as int) == fdiv(
            duration_ms as int,
            PREDICT_STEP_MS as int,
        ));
    }
    let mut path: Vec<Vec2> = Vec::new();
    let mut pos = start;
    let mut thrust = initial_thrust;
    let mut i: usize = 0;
    while i < step_num
        invariant
            forall|j: int| 0 <= j < asteroids@.len() ==> (#[trigger] asteroids@[j]).wf(),
            asteroids@.len() <= MAX_ASTEROIDS,
            i <= step_num,
            pos.in_bounds(),
            thrust.in_bounds(),
            path@.len() == i,
            ({
                let t = strajectory(
                    asteroids@,
                    start.x as int,
                    start.y as int,
                    initial_thrust.x as int,
                    initial_thrust.y as int,
                    PREDICT_STEP_MS as int,
                    i as int,
                );
                pos.x == t.0 && pos.y == t.1 && thrust.x == t.2 && thrust.y == t.3
            }),
            forall|j: int|
                0 <= j < i ==> {
                    let t = strajectory(
                        asteroids@,
                        start.x as int,
                        start.y as int,
                        initial_thrust.x as int,
                        initial_thrust.y as int,
                        PREDICT_STEP_MS as int,
                        j + 1,
                    );
                    (#[trigger] path@[j]).x == t.0 && path@[j].y == t.1
                },
        decreases step_num - i,
    {
        let (np, nt) = step_kinematics(asteroids, pos, thrust, PREDICT_STEP_MS);
        pos = np;
        thrust = nt;
        path.push(pos);
        i = i + 1;
    }
    path
}

} // verus!
