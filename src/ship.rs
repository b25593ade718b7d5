use vstd::prelude::*;

use crate::controls::Thrust;

verus! {

/// A full tank, in thousandths.
pub const FUEL_FULL: u32 = 1000;

/// Fuel spent per thrusting frame once the ship is set up, in thousandths of a tank.
pub const DEFAULT_BURN_RATE: u32 = 1;

/// The ship's fuel, in thousandths of a full tank.
///
/// A ship whose burn rate is zero has not been set up yet: the first frame
/// that sees it fills the tank and sets the default burn rate.
#[derive(Clone, Copy, Debug, PartialEq, Eq, Structural)]
pub struct Ship {
    pub fuel_level: u32,
    pub fuel_burn_rate: u32,
}

impl Ship {
    /// The tank never holds more than a full load.
    pub open spec fn wf(self) -> bool {
        self.fuel_level <= FUEL_FULL
    }

    pub open spec fn set_up(self) -> Ship {
        if self.fuel_burn_rate == 0 {
            Ship { fuel_level: FUEL_FULL, fuel_burn_rate: DEFAULT_BURN_RATE }
        } else {
            self
        }
    }

    /// The tank after a frame's thrust: a ship in flight that thrusts spends
    /// its burn rate, never going below empty.
    pub open spec fn burned(self, thrust: Thrust, landed: bool) -> Ship {
        if !landed && thrust != Thrust::Idle {
            Ship {
                fuel_level: if self.fuel_level >= self.fuel_burn_rate {
                    (self.fuel_level - self.fuel_burn_rate) as u32
                } else {
                    0
                },
                ..self
            }
        } else {
            self
        }
    }

    /// An empty ship in flight gets no thrust; a landed one keeps what it asked for.
    pub open spec fn gated(self, thrust: Thrust, landed: bool) -> Thrust {
        if !landed && self.fuel_level == 0 {
            Thrust::Idle
        } else {
            thrust
        }
    }

    /// Fills the tank of a ship that has not been set up.
    pub fn set_up_if_new(&mut self)
        ensures
            *final(self) == old(self).set_up(),
            old(self).wf() ==> final(self).wf(),
    {
        if self.fuel_burn_rate == 0 {
            self.fuel_level = FUEL_FULL;
            self.fuel_burn_rate = DEFAULT_BURN_RATE;
        }
    }

    /// Spends fuel for the frame's thrust and returns the thrust that is left
    /// once an empty tank is taken into account.
    pub fn burn(&mut self, thrust: Thrust, landed: bool) -> (r: Thrust)
        ensures
            *final(self) == old(self).burned(thrust, landed),
            r == final(self).gated(thrust, landed),
            old(self).wf() ==> final(self).wf(),
    {
        let mut thrust = thrust;
        if !landed {
            if thrust != Thrust::Idle {
                self.fuel_level = self.fuel_level.saturating_sub(self.fuel_burn_rate);
            }
            if self.fuel_level == 0 {
                thrust = Thrust::Idle;
            }
        }
        thrust
    }
}

impl Default for Ship {
    /// A ship as the session starts: all zero, not yet set up.
    fn default() -> (r: Ship)
        ensures
            r == (Ship { fuel_level: 0, fuel_burn_rate: 0 }),
    {
        Ship { fuel_level: 0, fuel_burn_rate: 0 }
    }
}

} // verus!
