//! One whole frame, in the fixed dependency order: gravity, collision,
//! movement, label.

use vstd::prelude::*;
use crate::collision::{collide_model, collision_stage, top_contact_along, lemma_grounded_after_collision};
use crate::gravity::{gravity_model, gravity_stage};
use crate::label::{label_model, label_position};
use crate::movement::{move_model, movement_stage};
use crate::world::{
    Actor, ActorM, KeyInput, Obstacle, ObstacleM, Vec2, actor_wf, dt_wf, extent_wf,
    obstacle_models, obstacles_wf,
};

verus! {

/// What one frame does to the actor: gravity writes the acceleration, the
/// collision pass corrects position and velocity against every obstacle, and
/// the movement stage integrates and wraps.
pub open spec fn frame_model(
    a: ActorM,
    obs: Seq<ObstacleM>,
    input: KeyInput,
    num: int,
    den: int,
    w: int,
    h: int,
) -> ActorM {
    move_model(collide_model(gravity_model(a), obs), input, num, den, w, h)
}

/// Run one frame over the actor and return the label's new position.
pub fn frame_step(
    actor: &mut Actor,
    obstacles: &Vec<Obstacle>,
    input: KeyInput,
    dt_num: i64,
    dt_den: i64,
    w: i64,
    h: i64,
) -> (label: Vec2)
    requires
        actor_wf(old(actor)@),
        obstacles_wf(obstacle_models(obstacles@)),
        dt_wf(dt_num as int, dt_den as int),
        extent_wf(w as int),
        extent_wf(h as int),
    ensures
        final(actor)@ == frame_model(
            old(actor)@,
            obstacle_models(obstacles@),
            input,
            dt_num as int,
            dt_den as int,
            w as int,
            h as int,
        ),
        -(w as int) / 2 <= final(actor)@.position.x < (w as int) / 2,
        -(h as int) / 2 <= final(actor)@.position.y < (h as int) / 2,
        label@ == label_model(final(actor)@),
{
    gravity_stage(actor);
    collision_stage(actor, obstacles);
    movement_stage(actor, input, dt_num, dt_den, w, h);
    label_position(actor)
}

/// Over a whole frame, the grounded flag ends true exactly when it was
/// already true or some Top-face contact was resolved, and no jump input was
/// accepted afterwards: a Top-face contact is the only way to set it, an
/// accepted jump the only way to clear it.
pub proof fn lemma_grounded_flag(
    a: ActorM,
    obs: Seq<ObstacleM>,
    input: KeyInput,
    num: int,
    den: int,
    w: int,
    h: int,
)
    ensures
        frame_model(a, obs, input, num, den, w, h).grounded == ((a.grounded
            || top_contact_along(gravity_model(a), obs)) && !input.up),
{
    lemma_grounded_after_collision(gravity_model(a), obs);
}

} // verus!
