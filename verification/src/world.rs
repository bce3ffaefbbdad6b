//! The entities of the arena and their mathematical models.
//!
//! Every coordinate, velocity, acceleration and extent is an `i64` in
//! milliunits: one thousandth of an arena unit. The ghost models carry the
//! same fields as unbounded integers, so contracts never truncate.

use vstd::prelude::*;
use crate::fixed::mag;

verus! {

/// Gravitational acceleration, milliunits per second squared.
pub const GRAVITY: i64 = -980_000;

/// Numerator of the restitution-plus-damping factor applied on every contact.
pub const RESTITUTION_NUM: i64 = 3;

/// Denominator of the restitution-plus-damping factor.
pub const RESTITUTION_DEN: i64 = 10;

/// Vertical offset of the follower label above the actor, milliunits.
pub const LABEL_OFFSET: i64 = 25_000;

/// Largest magnitude the actor's dynamic quantities (position, velocity,
/// acceleration) may have on entry to a stage.
pub const DYN_LIMIT: i64 = 5_000_000_000_000;

/// Largest magnitude of static geometry: obstacle centers and half-extents,
/// the actor's half-extents, input speed, jump impulse, and arena extents.
pub const GEOM_LIMIT: i64 = 1_000_000_000_000;

/// Largest admitted numerator or denominator of the frame time.
pub const DT_PART_LIMIT: i64 = 100_000;

/// Largest admitted frame time in whole seconds.
pub const DT_MAX_SECONDS: i64 = 10;

/// A pair of fixed-point coordinates.
#[derive(Clone, Copy, Debug, PartialEq, Eq, Structural)]
pub struct Vec2 {
    pub x: i64,
    pub y: i64,
}

/// Model of `Vec2` over unbounded integers.
pub ghost struct V2 {
    pub x: int,
    pub y: int,
}

impl View for Vec2 {
    type V = V2;

    open spec fn view(&self) -> V2 {
        V2 { x: self.x as int, y: self.y as int }
    }
}

/// The single dynamic body.
#[derive(Clone, Copy, Debug, PartialEq, Eq, Structural)]
pub struct Actor {
    /// Center of the actor's box, arena-centered coordinates, +y up.
    pub position: Vec2,
    /// Milliunits per second.
    pub velocity: Vec2,
    /// Milliunits per second squared.
    pub acceleration: Vec2,
    /// Horizontal input speed, milliunits per second.
    pub speed: i64,
    /// Initial upward velocity of a jump, milliunits per second.
    pub jump_impulse: i64,
    /// True when a downward contact was resolved on the previous step.
    pub grounded: bool,
    /// Half-width and half-height of the actor's box.
    pub half_extents: Vec2,
}

/// Model of `Actor` over unbounded integers.
pub ghost struct ActorM {
    pub position: V2,
    pub velocity: V2,
    pub acceleration: V2,
    pub speed: int,
    pub jump_impulse: int,
    pub grounded: bool,
    pub half_extents: V2,
}

impl View for Actor {
    type V = ActorM;

    open spec fn view(&self) -> ActorM {
        ActorM {
            position: self.position@,
            velocity: self.velocity@,
            acceleration: self.acceleration@,
            speed: self.speed as int,
            jump_impulse: self.jump_impulse as int,
            grounded: self.grounded,
            half_extents: self.half_extents@,
        }
    }
}

/// A static axis-aligned rectangle, immutable after creation.
#[derive(Clone, Copy, Debug, PartialEq, Eq, Structural)]
pub struct Obstacle {
    pub center: Vec2,
    pub half_extents: Vec2,
}

/// Model of `Obstacle` over unbounded integers.
pub ghost struct ObstacleM {
    pub center: V2,
    pub half_extents: V2,
}

impl View for Obstacle {
    type V = ObstacleM;

    open spec fn view(&self) -> ObstacleM {
        ObstacleM { center: self.center@, half_extents: self.half_extents@ }
    }
}

/// Which arrow keys are held during a frame.
#[derive(Clone, Copy, Debug, PartialEq, Eq, Structural)]
pub struct KeyInput {
    pub left: bool,
    pub right: bool,
    pub up: bool,
    /// Reserved; has no effect.
    pub down: bool,
}

/// The models of a vector of obstacles, in iteration order.
pub open spec fn obstacle_models(obs: Seq<Obstacle>) -> Seq<ObstacleM> {
    obs.map_values(|o: Obstacle| o@)
}

/// Well-formed actor: dynamic quantities within `DYN_LIMIT`, geometry and
/// input scalars within `GEOM_LIMIT`, half-extents positive.
pub open spec fn actor_wf(a: ActorM) -> bool {
    &&& mag(a.position.x) <= DYN_LIMIT
    &&& mag(a.position.y) <= DYN_LIMIT
    &&& mag(a.velocity.x) <= DYN_LIMIT
    &&& mag(a.velocity.y) <= DYN_LIMIT
    &&& mag(a.acceleration.x) <= DYN_LIMIT
    &&& mag(a.acceleration.y) <= DYN_LIMIT
    &&& 0 <= a.speed <= GEOM_LIMIT
    &&& 0 <= a.jump_impulse <= GEOM_LIMIT
    &&& 0 < a.half_extents.x <= GEOM_LIMIT
    &&& 0 < a.half_extents.y <= GEOM_LIMIT
}

/// Well-formed obstacle: geometry within `GEOM_LIMIT`; degenerate zero
/// half-extents are admitted and resolve the actor exactly onto a face.
pub open spec fn obstacle_wf(o: ObstacleM) -> bool {
    &&& mag(o.center.x) <= GEOM_LIMIT
    &&& mag(o.center.y) <= GEOM_LIMIT
    &&& 0 <= o.half_extents.x <= GEOM_LIMIT
    &&& 0 <= o.half_extents.y <= GEOM_LIMIT
}

/// Every obstacle of a sequence is well-formed.
pub open spec fn obstacles_wf(obs: Seq<ObstacleM>) -> bool {
    forall|i: int| 0 <= i < obs.len() ==> obstacle_wf(#[trigger] obs[i])
}

/// Admissible frame time `num / den` seconds: nonnegative, at most
/// `DT_MAX_SECONDS`, with both parts within `DT_PART_LIMIT`.
pub open spec fn dt_wf(num: int, den: int) -> bool {
    &&& 0 <= num <= DT_PART_LIMIT
    &&& 1 <= den <= DT_PART_LIMIT
    &&& num <= DT_MAX_SECONDS * den
}

/// Admissible arena extent: even, positive, within `GEOM_LIMIT`.
pub open spec fn extent_wf(w: int) -> bool {
    &&& 2 <= w <= GEOM_LIMIT
    &&& w % 2 == 0
}

} // verus!
