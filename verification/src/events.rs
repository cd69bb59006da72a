//! Typed event records passed between the engine's stages and out to the
//! caller.  Producers append to a tick's queue; each consuming stage reads
//! its queue fully before the next stage runs.

use vstd::prelude::*;

use crate::vec2::Vec2;

verus! {

/// An explosion at a position, carrying its damage power (milli-points).
#[derive(Clone, Copy, PartialEq, Eq, Structural, Debug)]
pub struct Explode {
    pub pos: Vec2,
    pub power: i64,
}

/// Everything the engine reports to the outside: turn flow, explosions,
/// destruction, and the end of the game.
#[derive(Clone, Copy, PartialEq, Eq, Debug)]
pub enum Event {
    /// A new turn began; the base is now the active one.
    TurnStart { base: usize },
    /// The in-flight turn-consuming projectile resolved.
    TurnEnd,
    /// A projectile detonated.
    Exploded { pos: Vec2, power: i64 },
    /// A base dropped below zero health or lost its asteroid.
    BaseDestroyed { base: usize },
    /// An asteroid was worn below the minimum radius.
    AsteroidDestroyed { asteroid: usize },
    /// At most one player still owns a base; `winner` names it, or is
    /// `None` on a draw.
    GameOver { winner: Option<usize> },
}

} // verus!
