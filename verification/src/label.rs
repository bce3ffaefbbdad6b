//! Last stage of a frame: place the follower label above the actor.

use vstd::prelude::*;
use crate::fixed::mag;
use crate::world::{Actor, ActorM, V2, Vec2, GEOM_LIMIT, LABEL_OFFSET};

verus! {

/// Where the label stands: on the actor's center, raised by the fixed offset.
pub open spec fn label_model(a: ActorM) -> V2 {
    V2 { x: a.position.x, y: a.position.y + LABEL_OFFSET }
}

/// Compute the label's position from the actor's.
pub fn label_position(actor: &Actor) -> (p: Vec2)
    requires
        mag(actor@.position.y) <= GEOM_LIMIT,
    ensures
        p@ == label_model(actor@),
{
    Vec2 { x: actor.position.x, y: actor.position.y + LABEL_OFFSET }
}

} // verus!
