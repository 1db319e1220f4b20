use vstd::prelude::*;
use crate::units::{fits, Vec2};

verus! {

/// The pull of gravity, in pixels per second squared. One tick of it
/// changes a velocity by that many velocity units.
#[derive(Clone, Copy, Debug, PartialEq, Eq, Structural)]
pub struct Gravity(pub i64);

/// The velocity of an entity, in subpixels per tick.
#[derive(Clone, Copy, Debug, PartialEq, Eq, Structural)]
pub struct Velocity(pub Vec2);

/// Whether gravity acts on an entity. For the player this is also the
/// airborne flag: gravity acts on it while it is in the air.
#[derive(Clone, Copy, Debug, PartialEq, Eq, Structural)]
pub struct AffectedByGravity(pub bool);

impl Velocity {
    /// The velocity zero.
    pub open spec fn spec_zero() -> Velocity {
        Velocity(Vec2 { x: 0, y: 0 })
    }

    /// The velocity after one tick of gravity: the vertical part less the
    /// gravity where the entity is affected, unchanged where it is not.
    pub open spec fn after_gravity(self, gravity: Gravity, affected: AffectedByGravity) -> Velocity {
        if affected.0 {
            Velocity(Vec2 { x: self.0.x, y: (self.0.y - gravity.0) as i64 })
        } else {
            self
        }
    }

    /// Returns the velocity zero.
    pub fn zero() -> (v: Velocity)
        ensures
            v == Velocity::spec_zero(),
    {
        Velocity(Vec2 { x: 0, y: 0 })
    }
}

/// Applies one tick of gravity to one entity.
pub fn gravity_system(gravity: &Gravity, velocity: &mut Velocity, affected: &AffectedByGravity)
    requires
        affected.0 ==> fits(old(velocity).0.y - gravity.0),
    ensures
        *final(velocity) == old(velocity).after_gravity(*gravity, *affected),
        affected.0 ==> final(velocity).0.y == old(velocity).0.y - gravity.0,
{
    if !affected.0 {
        return ;
    }
    velocity.0.y = velocity.0.y - gravity.0;
}

} // verus!
