//! Second stage of a frame: detect overlap between the actor and each static
//! obstacle, resolve it by position correction plus damped velocity
//! reflection, and update the grounded flag.

use vstd::prelude::*;
use crate::fixed::{mag, tdiv, lemma_tdiv_bound};
use vstd::arithmetic::div_mod::lemma_div_pos_is_pos;
use crate::world::{
    Actor, ActorM, Obstacle, ObstacleM, V2, actor_wf, obstacle_wf, obstacles_wf,
    obstacle_models, RESTITUTION_NUM, RESTITUTION_DEN, DYN_LIMIT,
};

verus! {

/// The face of the obstacle that the actor struck, named from the obstacle's
/// point of view: `Left` means the actor sits on the obstacle's left side.
#[derive(Clone, Copy, Debug, PartialEq, Eq, Structural)]
pub enum Contact {
    Left,
    Right,
    Top,
    Bottom,
}

/// Strict axis-aligned overlap between the actor's box and an obstacle's box.
pub open spec fn overlaps(a: ActorM, o: ObstacleM) -> bool {
    &&& mag(a.position.x - o.center.x) < a.half_extents.x + o.half_extents.x
    &&& mag(a.position.y - o.center.y) < a.half_extents.y + o.half_extents.y
}

/// Classify an overlap by the axis of least penetration; the sign of the
/// relative displacement picks the face on that axis. A tie in penetration
/// depths resolves to the horizontal axis, and a centered displacement on the
/// chosen axis resolves to `Right` or `Top`.
pub open spec fn contact_face(a: ActorM, o: ObstacleM) -> Contact {
    let dx = a.position.x - o.center.x;
    let dy = a.position.y - o.center.y;
    let px = (a.half_extents.x + o.half_extents.x) - mag(dx);
    let py = (a.half_extents.y + o.half_extents.y) - mag(dy);
    if px <= py {
        if dx < 0 {
            Contact::Left
        } else {
            Contact::Right
        }
    } else {
        if dy < 0 {
            Contact::Bottom
        } else {
            Contact::Top
        }
    }
}

/// The reflected-and-damped velocity component after a contact: three tenths
/// of the incoming component, with reversed sign, rounded toward zero.
pub open spec fn damped(v: int) -> int {
    tdiv(-RESTITUTION_NUM * v, RESTITUTION_DEN as int)
}

/// What resolving one obstacle does to the actor: nothing when disjoint;
/// otherwise the actor is placed exactly on the struck face, the velocity
/// component on that axis is reflected and damped, the acceleration component
/// on that axis is zeroed, and a Top-face contact grounds the actor.
pub open spec fn resolve_model(a: ActorM, o: ObstacleM) -> ActorM {
    if !overlaps(a, o) {
        a
    } else {
        match contact_face(a, o) {
            Contact::Left => ActorM {
                position: V2 {
                    x: o.center.x - o.half_extents.x - a.half_extents.x,
                    y: a.position.y,
                },
                velocity: V2 { x: damped(a.velocity.x), y: a.velocity.y },
                acceleration: V2 { x: 0, y: a.acceleration.y },
                ..a
            },
            Contact::Right => ActorM {
                position: V2 {
                    x: o.center.x + o.half_extents.x + a.half_extents.x,
                    y: a.position.y,
                },
                velocity: V2 { x: damped(a.velocity.x), y: a.velocity.y },
                acceleration: V2 { x: 0, y: a.acceleration.y },
                ..a
            },
            Contact::Top => ActorM {
                position: V2 {
                    x: a.position.x,
                    y: o.center.y + o.half_extents.y + a.half_extents.y,
                },
                velocity: V2 { x: a.velocity.x, y: damped(a.velocity.y) },
                acceleration: V2 { x: a.acceleration.x, y: 0 },
                grounded: true,
                ..a
            },
            Contact::Bottom => ActorM {
                position: V2 {
                    x: a.position.x,
                    y: o.center.y - o.half_extents.y - a.half_extents.y,
                },
                velocity: V2 { x: a.velocity.x, y: damped(a.velocity.y) },
                acceleration: V2 { x: a.acceleration.x, y: 0 },
                ..a
            },
        }
    }
}

/// What the whole collision pass does: resolve every obstacle in iteration
/// order, each against the state the previous resolutions left; later
/// resolutions overwrite earlier ones on the affected axis, with no early
/// exit.
pub open spec fn collide_model(a: ActorM, obs: Seq<ObstacleM>) -> ActorM
    decreases obs.len(),
{
    if obs.len() == 0 {
        a
    } else {
        collide_model(resolve_model(a, obs[0]), obs.drop_first())
    }
}

/// The damped component's magnitude is exactly three tenths of the incoming
/// magnitude (rounded toward zero), and in particular never larger.
pub proof fn lemma_damped_mag(v: int)
    ensures
        mag(damped(v)) == tdiv(RESTITUTION_NUM * mag(v), RESTITUTION_DEN as int),
        mag(damped(v)) <= mag(v),
{
    assert(mag(-3 * v) == 3 * mag(v));
    lemma_tdiv_bound(-3 * v, 10, mag(v));
    if v >= 0 {
        lemma_div_pos_is_pos(3 * v, 10);
    } else {
        lemma_div_pos_is_pos(3 * -v, 10);
    }
}

/// Reflect and damp one velocity component.
fn damp_velocity(v: i64) -> (r: i64)
    requires
        mag(v as int) <= DYN_LIMIT,
    ensures
        r == damped(v as int),
        mag(r as int) <= mag(v as int),
{
    proof {
        lemma_damped_mag(v as int);
    }
    (-RESTITUTION_NUM * v) / RESTITUTION_DEN
}

/// Resolve a single obstacle against the actor.
pub fn resolve_obstacle(actor: &mut Actor, o: &Obstacle)
    requires
        actor_wf(old(actor)@),
        obstacle_wf(o@),
    ensures
        final(actor)@ == resolve_model(old(actor)@, o@),
        actor_wf(final(actor)@),
{
    let dx: i64 = actor.position.x - o.center.x;
    let dy: i64 = actor.position.y - o.center.y;
    let sx: i64 = actor.half_extents.x + o.half_extents.x;
    let sy: i64 = actor.half_extents.y + o.half_extents.y;
    let adx: i64 = if dx >= 0 { dx } else { -dx };
    let ady: i64 = if dy >= 0 { dy } else { -dy };
    if adx < sx && ady < sy {
        let px: i64 = sx - adx;
        let py: i64 = sy - ady;
        if px <= py {
            actor.position.x = if dx < 0 {
                o.center.x - o.half_extents.x - actor.half_extents.x
            } else {
                o.center.x + o.half_extents.x + actor.half_extents.x
            };
            actor.velocity.x = damp_velocity(actor.velocity.x);
            actor.acceleration.x = 0;
        } else {
            if dy < 0 {
                actor.position.y = o.center.y - o.half_extents.y - actor.half_extents.y;
            } else {
                actor.position.y = o.center.y + o.half_extents.y + actor.half_extents.y;
                actor.grounded = true;
            }
            actor.velocity.y = damp_velocity(actor.velocity.y);
            actor.acceleration.y = 0;
        }
    }
}

/// Run the collision pass over every obstacle in iteration order.
pub fn collision_stage(actor: &mut Actor, obstacles: &Vec<Obstacle>)
    requires
        actor_wf(old(actor)@),
        obstacles_wf(obstacle_models(obstacles@)),
    ensures
        final(actor)@ == collide_model(old(actor)@, obstacle_models(obstacles@)),
        actor_wf(final(actor)@),
{
    let ghost all = obstacle_models(obstacles@);
    let ghost start = actor@;
    let n: usize = obstacles.len();
    let mut i: usize = 0;
    proof {
        assert(all.skip(0) =~= all);
    }
    while i < n
        invariant
            i <= n,
            n == obstacles.len(),
            all == obstacle_models(obstacles@),
            obstacles_wf(all),
            actor_wf(actor@),
            collide_model(start, all) == collide_model(actor@, all.skip(i as int)),
        decreases n - i,
    {
        let ghost before = actor@;
        let o: Obstacle = obstacles[i];
        proof {
            assert(all[i as int] == obstacles@[i as int]@);
        }
        resolve_obstacle(actor, &o);
        proof {
            assert(all.skip(i as int)[0] == all[i as int]);
            assert(all.skip(i as int).drop_first() =~= all.skip(i as int + 1));
            assert(collide_model(before, all.skip(i as int)) == collide_model(
                actor@,
                all.skip(i as int + 1),
            ));
        }
        i += 1;
    }
    proof {
        assert(all.skip(n as int) =~= Seq::<ObstacleM>::empty());
    }
}

/// After a single resolved overlap, the reflected axis keeps exactly three
/// tenths of its incoming speed (rounded toward zero) and the other axis's
/// velocity is untouched.
pub proof fn lemma_restitution_bound(a: ActorM, o: ObstacleM)
    requires
        overlaps(a, o),
    ensures
        contact_face(a, o) == Contact::Left || contact_face(a, o) == Contact::Right ==> {
            &&& mag(resolve_model(a, o).velocity.x) == tdiv(
                RESTITUTION_NUM * mag(a.velocity.x),
                RESTITUTION_DEN as int,
            )
            &&& resolve_model(a, o).velocity.y == a.velocity.y
        },
        contact_face(a, o) == Contact::Top || contact_face(a, o) == Contact::Bottom ==> {
            &&& mag(resolve_model(a, o).velocity.y) == tdiv(
                RESTITUTION_NUM * mag(a.velocity.y),
                RESTITUTION_DEN as int,
            )
            &&& resolve_model(a, o).velocity.x == a.velocity.x
        },
{
    lemma_damped_mag(a.velocity.x);
    lemma_damped_mag(a.velocity.y);
}

/// After resolving a single overlapping obstacle, the actor's box no longer
/// overlaps that obstacle's box: the correction places the boxes exactly
/// touching on the resolved axis.
pub proof fn lemma_resolution_separates(a: ActorM, o: ObstacleM)
    requires
        overlaps(a, o),
    ensures
        !overlaps(resolve_model(a, o), o),
{
}

/// Whether some obstacle of the pass, met in iteration order with the state
/// the previous resolutions left, resolves as a Top-face contact.
pub open spec fn top_contact_along(a: ActorM, obs: Seq<ObstacleM>) -> bool
    decreases obs.len(),
{
    if obs.len() == 0 {
        false
    } else {
        ||| (overlaps(a, obs[0]) && contact_face(a, obs[0]) == Contact::Top)
        ||| top_contact_along(resolve_model(a, obs[0]), obs.drop_first())
    }
}

/// The grounded flag after a collision pass holds exactly when it held before
/// or some obstacle of the pass resolved as a Top-face contact: no other part
/// of the pass touches the flag.
pub proof fn lemma_grounded_after_collision(a: ActorM, obs: Seq<ObstacleM>)
    ensures
        collide_model(a, obs).grounded == (a.grounded || top_contact_along(a, obs)),
    decreases obs.len(),
{
    if obs.len() > 0 {
        lemma_grounded_after_collision(resolve_model(a, obs[0]), obs.drop_first());
    }
}

} // verus!
