use vstd::prelude::*;

use crate::actor::{
    assisted, fall_bound, fly_step, start_actor, step, whole_pixels, Actor, Motion, Ordinal,
};
use crate::input::{ButtonState, Input};
use crate::world::{Platform, GRAVITY, GROUND_Y, MIN_VELOCITY, SCREEN_WIDTH, WRAP_LEFT};

verus! {

/// One tick of falling keeps the fall bound: the actor drops by the whole pixels
/// of its speed while gravity adds `GRAVITY`.
proof fn lemma_fall_bound_step(y: int, v: int)
    requires
        v < 0,
        fall_bound(y, v),
    ensures
        fall_bound(y - whole_pixels(v), v - GRAVITY),
{
    let u: int = -v;
    let d: int = u / 10;
    assert(10 * d >= u - 9);
    assert(whole_pixels(v) == -d);
    assert((v - 3) * (v - 3) + 30 * (v - 3) == v * v + 30 * v - 6 * v - 81) by (nonlinear_arith);
}

/// Within the screen's height the fall bound keeps the velocity above `MIN_VELOCITY`.
proof fn lemma_velocity_floor(y: int, v: int)
    requires
        0 <= y <= GROUND_Y,
        fall_bound(y, v),
    ensures
        v >= MIN_VELOCITY,
{
    if v < MIN_VELOCITY {
        assert(v * v + 30 * v > 7200) by (nonlinear_arith)
            requires
                v < -110,
        ;
    }
}

/// Every tick keeps an actor in the states reachable from the start: on screen,
/// within the velocity bounds, and at rest on the ground or the platform whenever
/// it is grounded.
pub proof fn lemma_step_preserves_wf(a: Actor, p: Platform, i: Input)
    requires
        p.wf(),
        a.wf(p),
    ensures
        step(a, p, i).0.wf(p),
{
    match a.motion {
        Motion::Airborne(n) => {
            if !(n == Ordinal::First && i.jump.just_pressed) {
                let v: int = assisted(a.velocity as int, i);
                let y: int = a.y - whole_pixels(v);
                let r = fly_step(a, p, i).0;
                if y < 0 {
                    assert(fall_bound(0, -3));
                } else if v < 0 {
                    lemma_fall_bound_step(a.y as int, v);
                    if r.motion is Airborne {
                        lemma_velocity_floor(y, v - GRAVITY);
                    }
                } else {
                    assert(fall_bound(y, v - GRAVITY)) by (nonlinear_arith)
                        requires
                            v >= 0,
                            y >= 0,
                    ;
                }
            }
        },
        _ => {},
    }
}

/// After every tick the actor's horizontal position lies in `WRAP_LEFT..=SCREEN_WIDTH`.
pub proof fn lemma_x_stays_in_band(a: Actor, p: Platform, i: Input)
    requires
        WRAP_LEFT <= a.x <= SCREEN_WIDTH,
    ensures
        WRAP_LEFT <= step(a, p, i).0.x <= SCREEN_WIDTH,
{
}

/// After every tick that leaves the actor grounded, it is at rest on the ground
/// or on the platform's surface.
pub proof fn lemma_grounded_at_rest(a: Actor, p: Platform, i: Input)
    requires
        p.wf(),
        a.wf(p),
    ensures
        step(a, p, i).0.motion is Grounded ==> step(a, p, i).0.velocity == 0 && (step(
            a,
            p,
            i,
        ).0.y == GROUND_Y || step(a, p, i).0.y == p.top_y),
{
    lemma_step_preserves_wf(a, p, i);
}

/// A flight allows one bonus jump: a jump press in the first flight starts the
/// second charge; the second charge leads only to the second flight; and the
/// second flight never starts another charge, it only goes on or lands. So the
/// second stage is left only by landing.
pub proof fn lemma_single_bonus_jump(a: Actor, p: Platform, i: Input)
    ensures
        a.motion == Motion::Airborne(Ordinal::First) && i.jump.just_pressed ==> step(a, p, i).0.motion
            == Motion::PreparingJump(Ordinal::Second),
        a.motion == Motion::PreparingJump(Ordinal::Second) ==> step(a, p, i).0.motion
            == Motion::PreparingJump(Ordinal::Second) || step(a, p, i).0.motion == Motion::Airborne(
            Ordinal::Second,
        ),
        a.motion == Motion::Airborne(Ordinal::Second) ==> step(a, p, i).0.motion == Motion::Airborne(
            Ordinal::Second,
        ) || step(a, p, i).0.motion == Motion::Grounded,
        step(a, p, i).0.motion == Motion::PreparingJump(Ordinal::Second) ==> a.motion
            == Motion::Airborne(Ordinal::First) || a.motion == Motion::PreparingJump(Ordinal::Second),
{
}

/// A tick that keeps the actor in flight, without a new charge and without
/// bumping into the top of the screen, lowers its velocity by exactly `GRAVITY`
/// after the hang-time assist, so the velocity strictly decreases.
pub proof fn lemma_gravity_lowers_velocity(a: Actor, p: Platform, i: Input)
    requires
        p.wf(),
        a.wf(p),
        a.motion is Airborne,
        !(a.motion == Motion::Airborne(Ordinal::First) && i.jump.just_pressed),
        step(a, p, i).0.motion is Airborne,
        a.y - whole_pixels(assisted(a.velocity as int, i)) >= 0,
    ensures
        step(a, p, i).0.velocity == assisted(a.velocity as int, i) - GRAVITY,
        step(a, p, i).0.velocity < a.velocity,
{
    lemma_step_preserves_wf(a, p, i);
}

/// Only the right button, held; `fresh` when it went down in this tick.
pub open spec fn right_walk(fresh: bool) -> Input {
    let up = ButtonState { held: false, just_pressed: false, just_released: false };
    Input { left: up, right: ButtonState { held: true, just_pressed: fresh, just_released: false }, jump: up }
}

/// Holding right for six ticks from a fresh press, on the ground, advances the
/// walk cycle from phase 0 to phase 1 exactly once: at the sixth tick.
pub proof fn lemma_walk_cadence(a: Actor, p: Platform)
    requires
        p.wf(),
        a.wf(p),
        a.motion is Grounded,
        a.y == GROUND_Y,
    ensures
        ({
            let a1 = step(a, p, right_walk(true)).0;
            let a2 = step(a1, p, right_walk(false)).0;
            let a3 = step(a2, p, right_walk(false)).0;
            let a4 = step(a3, p, right_walk(false)).0;
            let a5 = step(a4, p, right_walk(false)).0;
            let a6 = step(a5, p, right_walk(false)).0;
            &&& a1.walk_phase == 0 && a2.walk_phase == 0 && a3.walk_phase == 0
            &&& a4.walk_phase == 0 && a5.walk_phase == 0
            &&& a6.walk_phase == 1
            &&& a6.motion is Grounded
        }),
{
}

/// The actor after one tick per input of `inputs`, in order.
pub open spec fn run(a: Actor, p: Platform, inputs: Seq<Input>) -> Actor
    decreases inputs.len(),
{
    if inputs.len() == 0 {
        a
    } else {
        run(step(a, p, inputs[0]).0, p, inputs.drop_first())
    }
}

/// Over any sequence of ticks from the start state, the actor stays in the band
/// `WRAP_LEFT..=SCREEN_WIDTH`, between the top of the screen and the ground, and
/// at rest on the ground or the platform whenever it is grounded.
pub proof fn lemma_run_keeps_invariants(p: Platform, inputs: Seq<Input>)
    requires
        p.wf(),
    ensures
        run(start_actor(), p, inputs).wf(p),
        WRAP_LEFT <= run(start_actor(), p, inputs).x <= SCREEN_WIDTH,
        0 <= run(start_actor(), p, inputs).y <= GROUND_Y,
        run(start_actor(), p, inputs).motion is Grounded ==> run(start_actor(), p, inputs).velocity
            == 0 && (run(start_actor(), p, inputs).y == GROUND_Y || run(start_actor(), p, inputs).y
            == p.top_y),
{
    lemma_run_preserves_wf(start_actor(), p, inputs);
}

proof fn lemma_run_preserves_wf(a: Actor, p: Platform, inputs: Seq<Input>)
    requires
        p.wf(),
        a.wf(p),
    ensures
        run(a, p, inputs).wf(p),
    decreases inputs.len(),
{
    if inputs.len() > 0 {
        lemma_step_preserves_wf(a, p, inputs[0]);
        lemma_run_preserves_wf(step(a, p, inputs[0]).0, p, inputs.drop_first());
    }
}

} // verus!
