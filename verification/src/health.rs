//! Hit points and the rules that change them.

use vstd::prelude::*;

verus! {

/// Current and maximum hit points of a subject.
#[derive(Clone, Copy, Debug, PartialEq, Eq, Structural)]
pub struct Health {
    pub current: u32,
    pub max: u32,
}

/// A request to change a subject's hit points by a signed amount.
#[derive(Clone, Copy, Debug, PartialEq, Eq, Structural)]
pub struct HealthAffect {
    pub delta: i32,
}

/// Marker for subjects that are destroyed once their hit points reach zero.
#[derive(Clone, Copy, Debug)]
pub struct DieOnHealthZero;

/// The hit points after a signed change: the sum saturates to zero when it
/// leaves the `u32` range in either direction, and is capped at `max`.
pub open spec fn affected_health(current: int, max: int, delta: int) -> int {
    let raw = current + delta;
    let lifted = if 0 <= raw <= u32::MAX as int {
        raw
    } else {
        0
    };
    if lifted <= max {
        lifted
    } else {
        max
    }
}

impl Health {
    /// Applies one signed hit point change.
    pub fn apply_affect(&mut self, affect: &HealthAffect)
        ensures
            final(self).max == old(self).max,
            final(self).current as int == affected_health(
                old(self).current as int,
                old(self).max as int,
                affect.delta as int,
            ),
    {
        let wide: i64 = self.current as i64 + affect.delta as i64;
        let clipped: u32 = if wide < 0 || wide > u32::MAX as i64 {
            0
        } else {
            wide as u32
        };
        self.current = if clipped <= self.max {
            clipped
        } else {
            self.max
        };
    }

    /// The death decision: a subject dies exactly when its hit points are
    /// zero.
    pub fn is_depleted(&self) -> (depleted: bool)
        ensures
            depleted == (self.current == 0),
    {
        self.current == 0
    }
}

impl Default for Health {
    /// Fresh health starts at zero out of zero.
    fn default() -> (health: Self)
        ensures
            health.current == 0,
            health.max == 0,
    {
        Health { current: 0, max: 0 }
    }
}

} // verus!
