//! The startup scene: the actor at the arena's center and two static
//! obstacles, a floor spanning the arena and a column at the same anchor.

use vstd::prelude::*;
use crate::world::{
    Actor, ActorM, Obstacle, ObstacleM, V2, Vec2, actor_wf, extent_wf, obstacle_models,
    obstacle_wf, obstacles_wf,
};

verus! {

/// The actor's horizontal input speed at startup, milliunits per second.
pub const START_SPEED: i64 = 200_000;

/// The actor's jump impulse at startup, milliunits per second.
pub const START_JUMP_IMPULSE: i64 = 400_000;

/// The actor's half-extent on each axis at startup, milliunits.
pub const ACTOR_HALF_EXTENT: i64 = 10_000;

/// Half the floor's thickness, milliunits.
pub const GROUND_HALF_THICKNESS: i64 = 50_000;

/// The column's half-width, milliunits.
pub const COLUMN_HALF_WIDTH: i64 = 25_000;

/// The column's half-height, milliunits.
pub const COLUMN_HALF_HEIGHT: i64 = 100_000;

/// The actor as created at startup: at rest at the arena's center, with a
/// jump allowed at once.
pub open spec fn initial_actor_model() -> ActorM {
    ActorM {
        position: V2 { x: 0, y: 0 },
        velocity: V2 { x: 0, y: 0 },
        acceleration: V2 { x: 0, y: 0 },
        speed: START_SPEED as int,
        jump_impulse: START_JUMP_IMPULSE as int,
        grounded: true,
        half_extents: V2 { x: ACTOR_HALF_EXTENT as int, y: ACTOR_HALF_EXTENT as int },
    }
}

/// The floor: as wide as the arena, anchored half its thickness above the
/// arena's bottom edge.
pub open spec fn ground_model(w: int, h: int) -> ObstacleM {
    ObstacleM {
        center: V2 { x: 0, y: GROUND_HALF_THICKNESS - h / 2 },
        half_extents: V2 { x: w / 2, y: GROUND_HALF_THICKNESS as int },
    }
}

/// The column: a narrow tall box placed at the same anchor as the floor.
pub open spec fn column_model(w: int, h: int) -> ObstacleM {
    ObstacleM {
        center: V2 { x: 0, y: GROUND_HALF_THICKNESS - h / 2 },
        half_extents: V2 { x: COLUMN_HALF_WIDTH as int, y: COLUMN_HALF_HEIGHT as int },
    }
}

/// The obstacles as created at startup, in iteration order.
pub open spec fn initial_obstacles_model(w: int, h: int) -> Seq<ObstacleM> {
    seq![ground_model(w, h), column_model(w, h)]
}

/// Build the startup actor.
pub fn initial_actor() -> (a: Actor)
    ensures
        a@ == initial_actor_model(),
        actor_wf(a@),
{
    Actor {
        position: Vec2 { x: 0, y: 0 },
        velocity: Vec2 { x: 0, y: 0 },
        acceleration: Vec2 { x: 0, y: 0 },
        speed: START_SPEED,
        jump_impulse: START_JUMP_IMPULSE,
        grounded: true,
        half_extents: Vec2 { x: ACTOR_HALF_EXTENT, y: ACTOR_HALF_EXTENT },
    }
}

/// Build the startup obstacles for an arena of extents `w` by `h` milliunits.
pub fn initial_obstacles(w: i64, h: i64) -> (obs: Vec<Obstacle>)
    requires
        extent_wf(w as int),
        extent_wf(h as int),
    ensures
        obstacle_models(obs@) == initial_obstacles_model(w as int, h as int),
        obstacles_wf(obstacle_models(obs@)),
{
    let anchor_y: i64 = GROUND_HALF_THICKNESS - h / 2;
    let ground = Obstacle {
        center: Vec2 { x: 0, y: anchor_y },
        half_extents: Vec2 { x: w / 2, y: GROUND_HALF_THICKNESS },
    };
    let column = Obstacle {
        center: Vec2 { x: 0, y: anchor_y },
        half_extents: Vec2 { x: COLUMN_HALF_WIDTH, y: COLUMN_HALF_HEIGHT },
    };
    let mut obs: Vec<Obstacle> = Vec::new();
    obs.push(ground);
    obs.push(column);
    proof {
        assert(obstacle_models(obs@) =~= initial_obstacles_model(w as int, h as int));
    }
    obs
}

} // verus!
