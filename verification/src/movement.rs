//! Third stage of a frame: consume keyboard state and the elapsed time,
//! integrate velocity and position, apply the horizontal input offset, and
//! wrap the position to the arena bounds.
//!
//! The frame time is the rational `dt_num / dt_den` seconds. Every scaling by
//! it rounds toward zero.

use vstd::prelude::*;
use crate::fixed::{mag, tdiv, wrap, wrap_coord, lemma_scale_bound, lemma_wrap_identity};
use crate::world::{
    Actor, ActorM, KeyInput, V2, actor_wf, dt_wf, extent_wf, DYN_LIMIT, DT_PART_LIMIT,
};
use vstd::arithmetic::div_mod::{lemma_div_pos_is_pos, lemma_div_of0};

verus! {

/// The instantaneous horizontal velocity offset the held keys produce. It is
/// not accumulated into the velocity: releasing a key stops horizontal travel
/// at once.
pub open spec fn input_offset(a: ActorM, input: KeyInput) -> int {
    (if input.left {
        -a.speed
    } else {
        0
    }) + (if input.right {
        a.speed
    } else {
        0
    })
}

/// A jump input is accepted exactly when "up" is held and the actor is
/// grounded.
pub open spec fn jump_accepted(a: ActorM, input: KeyInput) -> bool {
    input.up && a.grounded
}

/// One truncating scaling of `acc` by the frame time, then by half the frame
/// time again: the second-order term of the position integration.
pub open spec fn half_acc_term(acc: int, num: int, den: int) -> int {
    tdiv(tdiv(acc * num, den) * num, 2 * den)
}

/// What the movement stage does, in order: accept a jump, integrate the
/// velocity from the acceleration, integrate the position from the new
/// velocity plus the input offset (with the second-order acceleration term),
/// and wrap the position into the centered arena intervals. The "down" key is
/// reserved and has no effect.
pub open spec fn move_model(
    a: ActorM,
    input: KeyInput,
    num: int,
    den: int,
    w: int,
    h: int,
) -> ActorM {
    let v0y = if jump_accepted(a, input) {
        a.jump_impulse
    } else {
        a.velocity.y
    };
    let vx = a.velocity.x + tdiv(a.acceleration.x * num, den);
    let vy = v0y + tdiv(a.acceleration.y * num, den);
    let u = input_offset(a, input);
    let px = wrap(
        a.position.x + tdiv((vx + u) * num, den) + half_acc_term(a.acceleration.x, num, den),
        w,
    );
    let py = wrap(
        a.position.y + tdiv(vy * num, den) + half_acc_term(a.acceleration.y, num, den),
        h,
    );
    ActorM {
        position: V2 { x: px, y: py },
        velocity: V2 { x: vx, y: vy },
        grounded: a.grounded && !input.up,
        ..a
    }
}

/// Scale `a` by the rational `num / den`, rounding toward zero.
fn scale(a: i64, num: i64, den: i64) -> (r: i64)
    requires
        mag(a as int) <= 12 * DYN_LIMIT,
        0 <= num <= DT_PART_LIMIT,
        1 <= den <= 2 * DT_PART_LIMIT,
        num <= 10 * den,
    ensures
        r == tdiv(a as int * num as int, den as int),
        mag(r as int) <= 10 * mag(a as int),
{
    proof {
        let ai: int = a as int;
        let ni: int = num as int;
        assert(-60_000_000_000_000 <= ai <= 60_000_000_000_000);
        assert(-6_000_000_000_000_000_000 <= ai * ni <= 6_000_000_000_000_000_000)
            by (nonlinear_arith)
            requires
                -60_000_000_000_000 <= ai <= 60_000_000_000_000,
                0 <= ni <= 100_000,
        ;
        lemma_scale_bound(ai, ni, den as int, 10, mag(ai));
    }
    (a * num) / den
}

/// Run the movement stage: `input` is the held keys, `dt_num / dt_den` the
/// elapsed seconds, `w` and `h` the arena extents in milliunits.
pub fn movement_stage(
    actor: &mut Actor,
    input: KeyInput,
    dt_num: i64,
    dt_den: i64,
    w: i64,
    h: i64,
)
    requires
        actor_wf(old(actor)@),
        dt_wf(dt_num as int, dt_den as int),
        extent_wf(w as int),
        extent_wf(h as int),
    ensures
        final(actor)@ == move_model(
            old(actor)@,
            input,
            dt_num as int,
            dt_den as int,
            w as int,
            h as int,
        ),
        -(w as int) / 2 <= final(actor)@.position.x < (w as int) / 2,
        -(h as int) / 2 <= final(actor)@.position.y < (h as int) / 2,
        final(actor)@.grounded == (old(actor)@.grounded && !input.up),
{
    let mut u: i64 = 0;
    if input.left {
        u = u - actor.speed;
    }
    if input.right {
        u = u + actor.speed;
    }
    if input.up && actor.grounded {
        actor.velocity.y = actor.jump_impulse;
        actor.grounded = false;
    }
    let dvx: i64 = scale(actor.acceleration.x, dt_num, dt_den);
    let dvy: i64 = scale(actor.acceleration.y, dt_num, dt_den);
    actor.velocity.x = actor.velocity.x + dvx;
    actor.velocity.y = actor.velocity.y + dvy;
    let half_den: i64 = 2 * dt_den;
    let hx: i64 = scale(dvx, dt_num, half_den);
    let hy: i64 = scale(dvy, dt_num, half_den);
    let sx: i64 = scale(actor.velocity.x + u, dt_num, dt_den);
    let sy: i64 = scale(actor.velocity.y, dt_num, dt_den);
    actor.position.x = wrap_coord(actor.position.x + sx + hx, w);
    actor.position.y = wrap_coord(actor.position.y + sy + hy, h);
}

/// The horizontal input does not persist: with no horizontal velocity or
/// acceleration, a frame that holds "right" moves the actor by exactly the
/// input speed scaled by the frame time, and the following frame that
/// releases it moves the actor by nothing, provided neither frame wraps.
pub proof fn lemma_input_non_persistence(
    a: ActorM,
    hold: KeyInput,
    release: KeyInput,
    num: int,
    den: int,
    w: int,
    h: int,
)
    requires
        actor_wf(a),
        dt_wf(num, den),
        extent_wf(w),
        extent_wf(h),
        hold.right && !hold.left && !hold.up,
        !release.right && !release.left && !release.up,
        a.velocity.x == 0,
        a.acceleration.x == 0,
        -w / 2 <= a.position.x,
        a.position.x + tdiv(a.speed * num, den) < w / 2,
    ensures
        move_model(a, hold, num, den, w, h).position.x == a.position.x + tdiv(
            a.speed * num,
            den,
        ),
        move_model(move_model(a, hold, num, den, w, h), release, num, den, w, h).position.x
            == move_model(a, hold, num, den, w, h).position.x,
{
    let step: int = tdiv(a.speed * num, den);
    assert(a.speed * num >= 0) by (nonlinear_arith)
        requires
            a.speed >= 0,
            num >= 0,
    ;
    lemma_div_pos_is_pos(a.speed * num, den);
    assert(step >= 0);
    lemma_div_of0(den);
    lemma_div_of0(2 * den);
    let a1 = move_model(a, hold, num, den, w, h);
    assert(a1.position.x == wrap(a.position.x + step, w));
    lemma_wrap_identity(a.position.x + step, w);
    assert(a1.velocity.x == 0 && a1.acceleration.x == 0);
    let a2 = move_model(a1, release, num, den, w, h);
    assert(a2.position.x == wrap(a1.position.x, w));
    lemma_wrap_identity(a1.position.x, w);
}

} // verus!
