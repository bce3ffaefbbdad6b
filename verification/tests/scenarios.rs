//! End-to-end frames over the standard arena: 1280 by 720 units, sixtieth-of-
//! a-second frames, the ground's top face at -260 units, the actor 20 by 20.

use michel::collision::collision_stage;
use michel::frame::frame_step;
use michel::gravity::gravity_stage;
use michel::movement::movement_stage;
use michel::world::{Actor, KeyInput, Obstacle, Vec2};

const W: i64 = 1_280_000;
const H: i64 = 720_000;

fn actor_at(px: i64, py: i64) -> Actor {
    Actor {
        position: Vec2 { x: px, y: py },
        velocity: Vec2 { x: 0, y: 0 },
        acceleration: Vec2 { x: 0, y: 0 },
        speed: 200_000,
        jump_impulse: 400_000,
        grounded: false,
        half_extents: Vec2 { x: 10_000, y: 10_000 },
    }
}

fn keys(left: bool, right: bool, up: bool) -> KeyInput {
    KeyInput { left, right, up, down: false }
}

fn ground() -> Obstacle {
    Obstacle { center: Vec2 { x: 0, y: -310_000 }, half_extents: Vec2 { x: 640_000, y: 50_000 } }
}

/// One frame of the three actor stages, in order.
fn frame(a: &mut Actor, obs: &Vec<Obstacle>, input: KeyInput) {
    gravity_stage(a);
    collision_stage(a, obs);
    movement_stage(a, input, 1, 60, W, H);
}

#[test]
fn freefall_one_second() {
    let obs = vec![ground()];
    let mut a = actor_at(0, 0);
    let mut contact_frame = 0;
    let mut speed_before_contact = 0;
    let mut y_after_contact = 0;
    let mut speed_after_contact = 0;
    for f in 1..=60 {
        gravity_stage(&mut a);
        let before = a;
        collision_stage(&mut a, &obs);
        if a.grounded && !before.grounded {
            contact_frame = f;
            speed_before_contact = before.velocity.y;
            y_after_contact = a.position.y;
            speed_after_contact = a.velocity.y;
        }
        movement_stage(&mut a, keys(false, false, false), 1, 60, W, H);
    }
    // The fall from 0 to the contact band takes sqrt(2 * 250 / 980) of a
    // second, about 43 sixtieths.
    assert_eq!(contact_frame, 43);
    // 42 frames of gravity at -16333 per frame.
    assert_eq!(speed_before_contact, -685_986);
    // Ground top at -260 units plus the actor's half-height of 10.
    assert_eq!(y_after_contact, -250_000);
    // Three tenths of the incoming speed, reflected upward.
    assert_eq!(speed_after_contact, 205_795);
    assert!(a.grounded);
}

#[test]
fn jump_from_rest_on_ground() {
    let obs = vec![ground()];
    let mut a = actor_at(0, -250_000);
    a.grounded = true;
    frame(&mut a, &obs, keys(false, false, true));
    // The jump impulse of 400 less one frame of gravity.
    assert_eq!(a.velocity.y, 383_667);
    assert!(!a.grounded);
    // Ballistic rise to a peak near -175 units, then fall.
    let mut peak = a.position.y;
    for _ in 0..120 {
        frame(&mut a, &obs, keys(false, false, false));
        peak = peak.max(a.position.y);
    }
    assert_eq!(peak, -174_938);
}

#[test]
fn side_walk_on_ground() {
    let obs = vec![ground()];
    let mut a = actor_at(0, -250_000);
    a.grounded = true;
    for _ in 0..30 {
        frame(&mut a, &obs, keys(false, true, false));
    }
    // 30 frames of 200/60 units: 100 units within rounding, and no horizontal
    // velocity remains.
    assert_eq!(a.position.x, 99_990);
    assert_eq!(a.velocity.x, 0);
    assert!(a.grounded);
}

#[test]
fn horizontal_wrap() {
    let obs = vec![ground()];
    let mut a = actor_at(W / 2 - 1_000, 0);
    frame(&mut a, &obs, keys(false, true, false));
    // 639 + 200/60 units leaves the right edge and reappears on the left.
    assert_eq!(a.position.x, -637_667);
}

#[test]
fn side_impact() {
    let column = Obstacle {
        center: Vec2 { x: 100_000, y: 0 },
        half_extents: Vec2 { x: 25_000, y: 100_000 },
    };
    let obs = vec![column];
    let mut a = actor_at(70_000, 0);
    a.velocity.x = 500_000;
    collision_stage(&mut a, &obs);
    assert_eq!(a.position.x, 65_000);
    assert_eq!(a.velocity.x, -150_000);
    assert_eq!(a.acceleration.x, 0);
}

#[test]
fn corner_tie_resolves_horizontally() {
    // A column anchored at ground level to the actor's right, with the
    // horizontal and vertical penetrations both at 9.9 units: the horizontal
    // axis wins the tie, so only x is corrected and grounding is untouched.
    let column = Obstacle {
        center: Vec2 { x: 100_000, y: -310_000 },
        half_extents: Vec2 { x: 25_000, y: 50_000 },
    };
    let obs = vec![column];
    let mut a = actor_at(74_900, -259_900);
    collision_stage(&mut a, &obs);
    assert_eq!(a.position.x, 65_000);
    assert_eq!(a.position.y, -259_900);
    assert!(!a.grounded);
}

#[test]
fn whole_frame_matches_stages() {
    let obs = vec![ground()];
    let mut by_stages = actor_at(0, -251_000);
    by_stages.velocity.y = -100_000;
    let mut by_frame = by_stages;
    gravity_stage(&mut by_stages);
    collision_stage(&mut by_stages, &obs);
    movement_stage(&mut by_stages, keys(true, false, false), 1, 60, W, H);
    let label = frame_step(&mut by_frame, &obs, keys(true, false, false), 1, 60, W, H);
    assert_eq!(by_frame, by_stages);
    assert_eq!(label.x, by_frame.position.x);
    assert_eq!(label.y, by_frame.position.y + 25_000);
}
