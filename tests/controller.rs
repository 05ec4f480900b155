use droid_platformer::actor::{velocity_pixels, Actor, Motion, Ordinal};
use droid_platformer::input::{ButtonState, Input};
use droid_platformer::pose::{
    POSE_ASCENDING, POSE_CHARGE, POSE_DESCENDING, POSE_IDLE, POSE_STRIDE_A, POSE_STRIDE_B,
};
use droid_platformer::world::{Platform, GROUND_Y, SCREEN_WIDTH, WRAP_LEFT};

const UP: ButtonState = ButtonState { held: false, just_pressed: false, just_released: false };
const PRESS: ButtonState = ButtonState { held: true, just_pressed: true, just_released: false };
const HOLD: ButtonState = ButtonState { held: true, just_pressed: false, just_released: false };
const RELEASE: ButtonState = ButtonState { held: false, just_pressed: false, just_released: true };

fn input(left: ButtonState, right: ButtonState, jump: ButtonState) -> Input {
    Input { left, right, jump }
}

fn idle() -> Input {
    input(UP, UP, UP)
}

fn airborne(x: i32, y: i32, velocity: i32, n: Ordinal) -> Actor {
    Actor { x, y, velocity, motion: Motion::Airborne(n), ..Actor::new() }
}

#[test]
fn start_state() {
    let a = Actor::new();
    assert_eq!((a.x, a.y, a.velocity), (120, GROUND_Y, 0));
    assert_eq!(a.motion, Motion::Grounded);
    assert_eq!(a.character_code, POSE_IDLE);
}

#[test]
fn apple_platform_geometry() {
    let p = Platform::apple();
    assert_eq!((p.x_min, p.x_max, p.top_y), (148, 172, 107));
    assert!(p.contains(148) && p.contains(172));
    assert!(!p.contains(147) && !p.contains(173));
}

#[test]
fn platform_must_lie_above_ground() {
    assert_eq!(Platform::new(0, 10, 50), Some(Platform { x_min: 0, x_max: 10, top_y: 50 }));
    assert_eq!(Platform::new(0, 10, GROUND_Y), None);
    assert_eq!(Platform::new(0, 10, -1), None);
    assert!(Platform::new(0, 10, 0).is_some());
}

#[test]
fn velocity_truncates_towards_zero() {
    assert_eq!(velocity_pixels(40), 4);
    assert_eq!(velocity_pixels(19), 1);
    assert_eq!(velocity_pixels(9), 0);
    assert_eq!(velocity_pixels(0), 0);
    assert_eq!(velocity_pixels(-9), 0);
    assert_eq!(velocity_pixels(-13), -1);
    assert_eq!(velocity_pixels(-29), -2);
}

#[test]
fn jump_charges_then_launches() {
    let p = Platform::apple();
    let mut a = Actor::new();
    assert_eq!(a.tick(&p, &input(UP, UP, PRESS)), Some(POSE_CHARGE));
    assert_eq!(a.motion, Motion::PreparingJump(Ordinal::First));
    for _ in 0..3 {
        assert_eq!(a.tick(&p, &idle()), Some(POSE_CHARGE));
        assert_eq!(a.motion, Motion::PreparingJump(Ordinal::First));
    }
    assert_eq!(a.tick(&p, &idle()), Some(POSE_CHARGE));
    assert_eq!(a.motion, Motion::Airborne(Ordinal::First));
    assert_eq!(a.velocity, 40);
    assert_eq!((a.x, a.y), (120, GROUND_Y));
}

#[test]
fn first_airborne_tick_rises_and_shows_ascending() {
    let p = Platform::apple();
    let mut a = airborne(120, GROUND_Y, 40, Ordinal::First);
    assert_eq!(a.tick(&p, &idle()), Some(POSE_ASCENDING));
    assert_eq!((a.y, a.velocity), (116, 37));
}

#[test]
fn hang_assist_while_jump_held() {
    let p = Platform::apple();
    let mut a = airborne(120, 100, 40, Ordinal::Second);
    a.tick(&p, &input(UP, UP, HOLD));
    assert_eq!((a.y, a.velocity), (96, 39));
    let mut b = airborne(120, 100, 5, Ordinal::Second);
    b.tick(&p, &input(UP, UP, HOLD));
    assert_eq!((b.y, b.velocity), (100, 2));
}

#[test]
fn lands_on_platform_from_above() {
    let p = Platform::apple();
    let mut a = airborne(160, p.top_y - 1, -10, Ordinal::First);
    assert_eq!(a.tick(&p, &idle()), Some(POSE_DESCENDING));
    assert_eq!((a.y, a.velocity, a.motion), (p.top_y, -13, Motion::Airborne(Ordinal::First)));
    assert_eq!(a.tick(&p, &idle()), Some(POSE_DESCENDING));
    assert_eq!(a.y, p.top_y);
    assert_eq!(a.motion, Motion::Grounded);
    assert_eq!(a.velocity, 0);
}

#[test]
fn walks_off_platform_edge() {
    let p = Platform::apple();
    let mut a = Actor { x: 172, y: p.top_y, walk_phase: 2, ..Actor::new() };
    assert_eq!(a.tick(&p, &input(UP, HOLD, UP)), None);
    assert_eq!(a.x, 173);
    assert_eq!(a.motion, Motion::Airborne(Ordinal::First));
    assert_eq!(a.velocity, 0);
    assert_eq!(a.walk_phase, 0);
    a.tick(&p, &idle());
    assert_eq!((a.y, a.velocity), (p.top_y, -3));
}

#[test]
fn stays_on_platform_inside_range() {
    let p = Platform::apple();
    let mut a = Actor { x: 171, y: p.top_y, ..Actor::new() };
    assert_eq!(a.tick(&p, &input(UP, HOLD, UP)), Some(POSE_IDLE));
    assert_eq!((a.x, a.motion), (172, Motion::Grounded));
}

#[test]
fn lands_on_ground_and_clamps() {
    let p = Platform::apple();
    let mut a = airborne(50, 118, -30, Ordinal::Second);
    assert_eq!(a.tick(&p, &idle()), Some(POSE_DESCENDING));
    assert_eq!(a.y, GROUND_Y);
    assert_eq!(a.motion, Motion::Grounded);
    assert_eq!(a.velocity, 0);
}

#[test]
fn bumps_into_top_of_screen() {
    let p = Platform::apple();
    let mut a = airborne(50, 2, 40, Ordinal::First);
    a.tick(&p, &idle());
    assert_eq!((a.y, a.velocity), (0, -3));
}

#[test]
fn bonus_jump_only_once() {
    let p = Platform::apple();
    let mut a = airborne(50, 60, 10, Ordinal::First);
    assert_eq!(a.tick(&p, &input(UP, UP, PRESS)), None);
    assert_eq!(a.motion, Motion::PreparingJump(Ordinal::Second));
    assert_eq!((a.y, a.velocity), (60, 10));
    for _ in 0..4 {
        a.tick(&p, &idle());
    }
    assert_eq!(a.motion, Motion::Airborne(Ordinal::Second));
    assert_eq!(a.velocity, 40);
    let before = a.velocity;
    a.tick(&p, &input(UP, UP, PRESS));
    assert_eq!(a.motion, Motion::Airborne(Ordinal::Second));
    assert!(a.velocity < before);
}

#[test]
fn gravity_lowers_velocity_each_airborne_tick() {
    let p = Platform::apple();
    let mut a = airborne(50, 60, 4, Ordinal::Second);
    for _ in 0..5 {
        let v = a.velocity;
        a.tick(&p, &idle());
        assert_eq!(a.velocity, v - 3);
    }
    assert_eq!(a.velocity, -11);
}

#[test]
fn walk_cadence_advances_once_in_six_ticks() {
    let p = Platform::apple();
    let mut a = Actor { walk_phase: 3, frame_timer: 4, ..Actor::new() };
    a.tick(&p, &input(UP, PRESS, UP));
    assert_eq!((a.walk_phase, a.frame_timer), (0, 1));
    for _ in 0..4 {
        a.tick(&p, &input(UP, HOLD, UP));
        assert_eq!(a.walk_phase, 0);
    }
    assert_eq!(a.tick(&p, &input(UP, HOLD, UP)), Some(POSE_STRIDE_A));
    assert_eq!((a.walk_phase, a.frame_timer), (1, 0));
    assert_eq!(a.x, 126);
    assert!(!a.facing_left);
}

#[test]
fn walk_cycle_poses() {
    let p = Platform::apple();
    let mut a = Actor::new();
    a.tick(&p, &input(PRESS, UP, UP));
    let mut shown = Vec::new();
    for _ in 0..24 {
        if let Some(code) = a.tick(&p, &input(HOLD, UP, UP)) {
            shown.push(code);
        }
    }
    assert_eq!(shown.len(), 24);
    assert_eq!(shown[4], POSE_STRIDE_A);
    assert_eq!(shown[10], POSE_IDLE);
    assert_eq!(shown[16], POSE_STRIDE_B);
    assert_eq!(shown[22], POSE_IDLE);
    assert_eq!(a.walk_phase, 0);
    assert!(a.facing_left);
    assert_eq!(a.x, 95);
}

#[test]
fn release_shows_idle() {
    let p = Platform::apple();
    let mut a = Actor { character_code: POSE_STRIDE_B, walk_phase: 3, ..Actor::new() };
    assert_eq!(a.tick(&p, &input(UP, RELEASE, UP)), Some(POSE_IDLE));
    assert_eq!(a.walk_phase, 3);
}

#[test]
fn both_directions_cancel_and_face_right() {
    let p = Platform::apple();
    let mut a = Actor { facing_left: true, ..Actor::new() };
    a.tick(&p, &input(HOLD, HOLD, UP));
    assert_eq!(a.x, 120);
    assert!(!a.facing_left);
}

#[test]
fn wraps_at_both_edges() {
    let p = Platform::apple();
    let mut a = Actor { x: WRAP_LEFT, ..Actor::new() };
    a.tick(&p, &input(HOLD, UP, UP));
    assert_eq!(a.x, SCREEN_WIDTH);
    a.tick(&p, &input(UP, HOLD, UP));
    assert_eq!(a.x, WRAP_LEFT);
    let mut b = airborne(SCREEN_WIDTH, 50, 0, Ordinal::Second);
    b.tick(&p, &input(UP, HOLD, UP));
    assert_eq!(b.x, WRAP_LEFT);
}

#[test]
fn long_run_stays_in_bounds() {
    let p = Platform::apple();
    let mut a = Actor::new();
    let buttons = [UP, PRESS, HOLD, RELEASE];
    for t in 0..5000usize {
        let i = input(buttons[t % 4], buttons[(t / 7) % 4], buttons[(t / 3) % 4]);
        a.tick(&p, &i);
        assert!(WRAP_LEFT <= a.x && a.x <= SCREEN_WIDTH);
        assert!(0 <= a.y && a.y <= GROUND_Y);
        if a.motion == Motion::Grounded {
            assert_eq!(a.velocity, 0);
            assert!(a.y == GROUND_Y || a.y == p.top_y);
        }
    }
}
