//! The turn/phase state machine.
//!
//! A turn has two phases: **Aiming**, while the player adjusts angle and
//! power, and **Firing**, while a turn-consuming projectile is in flight.
//! Aim and power are clamped continuously during input handling and again
//! at fire time.  A fire request outside the aiming phase, or without an
//! active base, is filtered: no state change, no launch.

use vstd::prelude::*;

use crate::consts::{HALF_PI_MRAD, POWER_MIN, POWER_MAX, POWER_DEFAULT, LAUNCH_OFFSET};
use crate::fxp::sclamp;
use crate::weapon::{Launch, WeaponType};

verus! {

/// Which half of a turn is active.
#[derive(Clone, Copy, PartialEq, Eq, Structural, Debug)]
pub enum TurnPhase {
    Aiming,
    Firing,
}

impl Default for TurnPhase {
    /// A turn begins in the aiming phase.
    fn default() -> (r: Self)
        ensures
            r == TurnPhase::Aiming,
    {
        TurnPhase::Aiming
    }
}

/// Announcement of a phase switch, for the caller's UI.
#[derive(Clone, Copy, PartialEq, Eq, Structural, Debug)]
pub struct TurnPhaseChanged {
    pub new_phase: TurnPhase,
}

/// The mutable aiming/firing state of the current turn.
#[derive(Clone, Copy, PartialEq, Eq, Debug)]
pub struct TurnState {
    pub phase: TurnPhase,
    /// The base the current player fires from, if a turn is under way.
    pub active_base: Option<usize>,
    /// Firing angle, milli-radians, clamped to a half pi either way.
    pub firing_angle: i64,
    /// Firing power, milli-units per second, clamped to its range.
    pub power: i64,
}

impl TurnState {
    /// The clamps every mutation maintains.
    pub open spec fn wf(self) -> bool {
        -HALF_PI_MRAD <= self.firing_angle <= HALF_PI_MRAD && POWER_MIN <= self.power
            <= POWER_MAX
    }

    /// The state before any turn has started.
    pub fn new() -> (r: TurnState)
        ensures
            r.phase == TurnPhase::Aiming,
            r.active_base.is_none(),
            r.firing_angle == 0,
            r.power == POWER_DEFAULT,
            r.wf(),
    {
        TurnState {
            phase: TurnPhase::Aiming,
            active_base: None,
            firing_angle: 0,
            power: POWER_DEFAULT,
        }
    }

    /// Begin a turn on `base`: aiming phase, angle reset to zero, power
    /// reset to the default.
    pub fn turn_start(&mut self, base: usize)
        ensures
            final(self).phase == TurnPhase::Aiming,
            final(self).active_base == Some(base),
            final(self).firing_angle == 0,
            final(self).power == POWER_DEFAULT,
            final(self).wf(),
    {
        self.phase = TurnPhase::Aiming;
        self.active_base = Some(base);
        self.firing_angle = 0;
        self.power = POWER_DEFAULT;
    }

    /// Turn the aim by `delta` milli-radians, clamped to a half pi either
    /// way; ignored outside the aiming phase.
    pub fn adjust_aim(&mut self, delta: i64)
        requires
            old(self).wf(),
            -1_000_000 <= delta <= 1_000_000,
        ensures
            final(self).wf(),
            old(self).phase == TurnPhase::Aiming ==> *final(self) == (TurnState {
                firing_angle: sclamp(
                    old(self).firing_angle + delta,
                    -HALF_PI_MRAD as int,
                    HALF_PI_MRAD as int,
                ) as i64,
                ..*old(self)
            }),
            old(self).phase != TurnPhase::Aiming ==> *final(self) == *old(self),
    {
        if self.phase == TurnPhase::Aiming {
            let a = self.firing_angle + delta;
            self.firing_angle = if a < -HALF_PI_MRAD {
                -HALF_PI_MRAD
            } else if a > HALF_PI_MRAD {
                HALF_PI_MRAD
            } else {
                a
            };
        }
    }

    /// Change the firing power by `delta`, clamped to its range; ignored
    /// outside the aiming phase.
    pub fn adjust_power(&mut self, delta: i64)
        requires
            old(self).wf(),
            -1_000_000 <= delta <= 1_000_000,
        ensures
            final(self).wf(),
            old(self).phase == TurnPhase::Aiming ==> *final(self) == (TurnState {
                power: sclamp(old(self).power + delta, POWER_MIN as int, POWER_MAX as int) as i64,
                ..*old(self)
            }),
            old(self).phase != TurnPhase::Aiming ==> *final(self) == *old(self),
    {
        if self.phase == TurnPhase::Aiming {
            let p = self.power + delta;
            self.power = if p < POWER_MIN {
                POWER_MIN
            } else if p > POWER_MAX {
                POWER_MAX
            } else {
                p
            };
        }
    }

    /// A fire request: in the aiming phase with an active base it emits
    /// the launch of a rocket at the clamped angle and power and moves to
    /// the firing phase; in every other state it is a no-op — the state
    /// is unchanged and nothing is launched.
    pub fn fire_request(&mut self) -> (r: Option<Launch>)
        requires
            old(self).wf(),
        ensures
            final(self).wf(),
            old(self).phase == TurnPhase::Aiming && old(self).active_base.is_some() ==> r
                == Some(
                Launch {
                    angle: sclamp(
                        old(self).firing_angle as int,
                        -HALF_PI_MRAD as int,
                        HALF_PI_MRAD as int,
                    ) as i64,
                    offset: LAUNCH_OFFSET,
                    thrust: sclamp(old(self).power as int, POWER_MIN as int, POWER_MAX as int)
                        as i64,
                    parent: old(self).active_base.unwrap(),
                    weapon_type: WeaponType::Rocket,
                },
            ) && *final(self) == (TurnState { phase: TurnPhase::Firing, ..*old(self) }),
            !(old(self).phase == TurnPhase::Aiming && old(self).active_base.is_some()) ==> r
                == None::<Launch> && *final(self) == *old(self),
            r.is_some() ==> r.unwrap().wf(),
    {
        if self.phase == TurnPhase::Aiming {
            match self.active_base {
                Some(base) => {
                    let angle = if self.firing_angle < -HALF_PI_MRAD {
                        -HALF_PI_MRAD
                    } else if self.firing_angle > HALF_PI_MRAD {
                        HALF_PI_MRAD
                    } else {
                        self.firing_angle
                    };
                    let thrust = if self.power < POWER_MIN {
                        POWER_MIN
                    } else if self.power > POWER_MAX {
                        POWER_MAX
                    } else {
                        self.power
                    };
                    self.phase = TurnPhase::Firing;
                    Some(
                        Launch {
                            angle,
                            offset: LAUNCH_OFFSET,
                            thrust,
                            parent: base,
                            weapon_type: WeaponType::Rocket,
                        },
                    )
                },
                None => None,
            }
        } else {
            None
        }
    }

    /// Observe whether a turn-consuming weapon is in flight and switch
    /// phases accordingly, reporting a switch when one happens.
    pub fn turn_phase_update(&mut self, active_weapon_in_flight: bool) -> (r: Option<
        TurnPhaseChanged,
    >)
        requires
            old(self).wf(),
        ensures
            final(self).wf(),
            old(self).phase == TurnPhase::Firing && !active_weapon_in_flight ==> *final(self) == (
            TurnState { phase: TurnPhase::Aiming, ..*old(self) }) && r == Some(
                TurnPhaseChanged { new_phase: TurnPhase::Aiming },
            ),
            old(self).phase == TurnPhase::Aiming && active_weapon_in_flight ==> *final(self) == (
            TurnState { phase: TurnPhase::Firing, ..*old(self) }) && r == Some(
                TurnPhaseChanged { new_phase: TurnPhase::Firing },
            ),
            old(self).phase == TurnPhase::Firing && active_weapon_in_flight ==> *final(self)
                == *old(self) && r == None::<TurnPhaseChanged>,
            old(self).phase == TurnPhase::Aiming && !active_weapon_in_flight ==> *final(self)
                == *old(self) && r == None::<TurnPhaseChanged>,
    {
        if self.phase == TurnPhase::Firing && !active_weapon_in_flight {
            self.phase = TurnPhase::Aiming;
            Some(TurnPhaseChanged { new_phase: TurnPhase::Aiming })
        } else if self.phase == TurnPhase::Aiming && active_weapon_in_flight {
            self.phase = TurnPhase::Firing;
            Some(TurnPhaseChanged { new_phase: TurnPhase::Firing })
        } else {
            None
        }
    }
}

} // verus!
