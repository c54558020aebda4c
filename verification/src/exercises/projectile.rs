//! A small ballistic toy: a projectile under gravity and wind, advanced
//! one tick at a time.  The printing loop that flies it lives with the
//! demo programs; the physics step is verified here.

use vstd::prelude::*;

use crate::math::point::Point;
use crate::math::vector::Vector;
use crate::math::vector::v_add;

verus! {

#[derive(Clone, Copy, Debug, PartialEq, Eq, Structural)]
pub struct Projectile {
    pub position: Point,
    pub velocity: Vector,
}

#[derive(Clone, Copy, Debug, PartialEq, Eq, Structural)]
pub struct Environment {
    pub gravity: Vector,
    pub wind: Vector,
}

/// One time step: the position moves by the velocity, and the velocity
/// picks up gravity and wind.
pub fn tick(environment: &Environment, projectile: &Projectile) -> (r: Projectile)
    ensures
        r.position@ == v_add(projectile.position@, projectile.velocity@),
        r.velocity@ == v_add(
            v_add(projectile.velocity@, environment.gravity@),
            environment.wind@,
        ),
{
    Projectile {
        position: projectile.position.displacment(&projectile.velocity),
        velocity: projectile.velocity.add(&environment.gravity).add(&environment.wind),
    }
}

} // verus!
