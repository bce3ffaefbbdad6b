//! First stage of a frame: write gravitational acceleration into the actor.

use vstd::prelude::*;
use crate::world::{Actor, ActorM, V2, Vec2, GRAVITY};

verus! {

/// What the gravity stage does: assign (not accumulate) the gravitational
/// acceleration to the vertical axis, leaving everything else untouched.
pub open spec fn gravity_model(a: ActorM) -> ActorM {
    ActorM { acceleration: V2 { x: a.acceleration.x, y: GRAVITY as int }, ..a }
}

/// Sets `acceleration.y` to `GRAVITY`. Horizontal acceleration is left
/// untouched here; the collision stage may zero it.
pub fn gravity_stage(actor: &mut Actor)
    ensures
        final(actor)@ == gravity_model(old(actor)@),
{
    actor.acceleration.y = GRAVITY;
}

/// Gravity is idempotent: because the stage assigns rather than accumulates,
/// running it twice without an intervening stage changes nothing more than
/// running it once.
pub proof fn lemma_gravity_idempotent(a: ActorM)
    ensures
        gravity_model(gravity_model(a)) == gravity_model(a),
{
}

} // verus!
