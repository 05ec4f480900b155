use vstd::prelude::*;

use crate::input::Input;
use crate::pose::{
    airborne_pose, is_ground_pose, walk_pose, POSE_ASCENDING, POSE_CHARGE, POSE_DESCENDING,
    POSE_IDLE, POSE_STRIDE_A, POSE_STRIDE_B,
};
use crate::world::{
    Platform, CHARGE_TICKS, GRAVITY, GROUND_Y, HANG_BOOST, HANG_THRESHOLD, JUMP_IMPULSE,
    MIN_VELOCITY, SCREEN_WIDTH, START_X, VELOCITY_SCALE, WALK_CADENCE, WRAP_LEFT,
};

verus! {

/// Which jump of a flight: the one launched from the ground, or the bonus jump
/// taken in mid-air.
#[derive(Clone, Copy, Debug, PartialEq, Eq, Structural)]
pub enum Ordinal {
    First,
    Second,
}

#[derive(Clone, Copy, Debug, PartialEq, Eq, Structural)]
pub enum Motion {
    /// Standing or walking on the ground or on the platform.
    Grounded,
    /// Crouching before a jump launches.
    PreparingJump(Ordinal),
    /// In flight.
    Airborne(Ordinal),
}

/// The controlled character.
#[derive(Clone, Copy, Debug, PartialEq, Eq, Structural)]
pub struct Actor {
    pub x: i32,
    /// Vertical screen position; it grows downwards.
    pub y: i32,
    /// Vertical velocity in tenths of a pixel per tick; positive is upwards.
    pub velocity: i32,
    /// The sprite is mirrored to face left.
    pub facing_left: bool,
    pub motion: Motion,
    /// Ticks spent in the current walk phase, or charging the current jump.
    pub frame_timer: u16,
    /// Position in the four-step walk cycle.
    pub walk_phase: u8,
    /// The pose shown while grounded.
    pub character_code: u16,
}

/// Rounds a velocity in tenths towards zero to whole pixels.
pub open spec fn whole_pixels(v: int) -> int {
    if v >= 0 {
        v / VELOCITY_SCALE as int
    } else {
        -((-v) / VELOCITY_SCALE as int)
    }
}

/// Brings a position that left the band `WRAP_LEFT..=SCREEN_WIDTH` back in on the
/// other side.
pub open spec fn wrap_x(x: int) -> int {
    if x < WRAP_LEFT {
        SCREEN_WIDTH as int
    } else if x > SCREEN_WIDTH {
        WRAP_LEFT as int
    } else {
        x
    }
}

/// A falling actor at height `y` has velocity no lower than its drop since the
/// top of its flight allows: `60 y >= v * v + 30 v` while `v < 0`.
pub open spec fn fall_bound(y: int, v: int) -> bool {
    v < 0 ==> 60 * y >= v * v + 30 * v
}

impl Actor {
    /// The states that ticks reach from the start state over `p`.
    pub open spec fn wf(&self, p: Platform) -> bool {
        &&& WRAP_LEFT <= self.x <= SCREEN_WIDTH
        &&& 0 <= self.y <= GROUND_Y
        &&& MIN_VELOCITY <= self.velocity <= JUMP_IMPULSE
        &&& self.frame_timer <= WALK_CADENCE
        &&& self.walk_phase < 4
        &&& is_ground_pose(self.character_code)
        &&& self.motion is Grounded ==> self.velocity == 0 && (self.y == GROUND_Y || self.y
            == p.top_y)
        &&& self.motion is PreparingJump ==> self.frame_timer <= CHARGE_TICKS
        &&& self.motion is Airborne ==> fall_bound(self.y as int, self.velocity as int)
    }
}

/// The actor at the start of the game: standing idle on the ground.
pub open spec fn start_actor() -> Actor {
    Actor {
        x: START_X,
        y: GROUND_Y,
        velocity: 0,
        facing_left: false,
        motion: Motion::Grounded,
        frame_timer: 0,
        walk_phase: 0,
        character_code: POSE_IDLE,
    }
}

/// The actor after the horizontal move of a tick: one pixel per held direction
/// button, then wrapped; it faces the way of the last button applied.
pub open spec fn moved(a: Actor, i: Input) -> Actor {
    let dx: int = (if i.right.held { 1int } else { 0int }) - (if i.left.held { 1int } else { 0int });
    Actor {
        x: wrap_x(a.x + dx) as i32,
        facing_left: if i.right.held { false } else if i.left.held { true } else { a.facing_left },
        ..a
    }
}

/// The walk animation after a grounded tick that did not start a jump.
pub open spec fn animated(a: Actor, i: Input) -> Actor {
    let fresh = i.left.just_pressed || i.right.just_pressed;
    let phase: u8 = if fresh { 0 } else { a.walk_phase };
    let timer: u16 = if fresh { 0 } else { a.frame_timer };
    let code: u16 = if i.left.just_released || i.right.just_released {
        POSE_IDLE
    } else {
        a.character_code
    };
    if !(i.left.held || i.right.held) {
        Actor { walk_phase: phase, frame_timer: timer, character_code: code, ..a }
    } else if timer + 1 > WALK_CADENCE {
        let next: u8 = ((phase + 1) % 4) as u8;
        Actor { walk_phase: next, frame_timer: 0, character_code: walk_pose(next), ..a }
    } else {
        Actor { walk_phase: phase, frame_timer: (timer + 1) as u16, character_code: code, ..a }
    }
}

/// A grounded tick without a jump press: move, animate, and fall off the
/// platform if the actor stands at its height but no longer over it.
pub open spec fn walk_step(a: Actor, p: Platform, i: Input) -> (Actor, Option<u16>) {
    let b = animated(moved(a, i), i);
    if b.y == p.top_y && !p.spans(b.x as int) {
        (Actor { velocity: 0, motion: Motion::Airborne(Ordinal::First), walk_phase: 0, ..b }, None)
    } else {
        (b, Some(b.character_code))
    }
}

/// A tick of jump charge: the jump of ordinal `n` launches once the timer
/// exceeds `CHARGE_TICKS`.
pub open spec fn charge_step(a: Actor, n: Ordinal) -> (Actor, Option<u16>) {
    let timer: u16 = (a.frame_timer + 1) as u16;
    if timer > CHARGE_TICKS {
        (
            Actor { frame_timer: timer, velocity: JUMP_IMPULSE, motion: Motion::Airborne(n), ..a },
            Some(POSE_CHARGE),
        )
    } else {
        (Actor { frame_timer: timer, ..a }, Some(POSE_CHARGE))
    }
}

/// The velocity after the hang-time assist of an airborne tick.
pub open spec fn assisted(v: int, i: Input) -> int {
    if v > HANG_THRESHOLD && i.jump.held {
        v + HANG_BOOST
    } else {
        v
    }
}

/// An airborne tick that did not start the bonus jump: move, integrate, bump
/// into the top of the screen, land on the platform (first) or the ground, and
/// otherwise lose `GRAVITY`. Landing brings the actor to rest.
pub open spec fn fly_step(a: Actor, p: Platform, i: Input) -> (Actor, Option<u16>) {
    let m = moved(a, i);
    let v: int = assisted(a.velocity as int, i);
    let y: int = a.y - whole_pixels(v);
    let shown = Some(airborne_pose(v));
    let ceiling = y < 0;
    let y2: int = if ceiling { 0 } else { y };
    let v2: int = if ceiling { 0 } else { v };
    if v2 < 0 && p.spans(m.x as int) && y2 > p.top_y {
        (Actor { y: p.top_y, velocity: 0, motion: Motion::Grounded, ..m }, shown)
    } else if y2 > GROUND_Y {
        (Actor { y: GROUND_Y, velocity: 0, motion: Motion::Grounded, ..m }, shown)
    } else {
        (Actor { y: y2 as i32, velocity: (v2 - GRAVITY) as i32, ..m }, shown)
    }
}

/// One tick of the controller: the next actor, and the pose to show, or `None`
/// where the display keeps the pose it shows. A jump press on the ground shows
/// the charge pose at once and resets the grounded pose to idle; a jump press in
/// the first flight starts the bonus charge and skips the rest of that tick.
pub open spec fn step(a: Actor, p: Platform, i: Input) -> (Actor, Option<u16>) {
    match a.motion {
        Motion::Grounded => if i.jump.just_pressed {
            (
                Actor {
                    motion: Motion::PreparingJump(Ordinal::First),
                    frame_timer: 0,
                    character_code: POSE_IDLE,
                    ..a
                },
                Some(POSE_CHARGE),
            )
        } else {
            walk_step(a, p, i)
        },
        Motion::PreparingJump(n) => charge_step(a, n),
        Motion::Airborne(n) => if n == Ordinal::First && i.jump.just_pressed {
            (Actor { motion: Motion::PreparingJump(Ordinal::Second), frame_timer: 0, ..a }, None)
        } else {
            fly_step(a, p, i)
        },
    }
}

/// The whole pixels a velocity in tenths moves the actor, rounded towards zero.
pub fn velocity_pixels(v: i32) -> (d: i32)
    requires
        v > i32::MIN,
    ensures
        d == whole_pixels(v as int),
{
    if v >= 0 {
        v / VELOCITY_SCALE
    } else {
        -((-v) / VELOCITY_SCALE)
    }
}

impl Actor {
    /// The actor at the start of the game, standing idle on the ground at `START_X`.
    pub fn new() -> (a: Actor)
        ensures
            a == start_actor(),
            forall|p: Platform| p.wf() ==> a.wf(p),
    {
        Actor {
            x: START_X,
            y: GROUND_Y,
            velocity: 0,
            facing_left: false,
            motion: Motion::Grounded,
            frame_timer: 0,
            walk_phase: 0,
            character_code: POSE_IDLE,
        }
    }

    /// Advances the actor by one display tick under `input`, and returns the pose
    /// to show, or `None` where the display keeps the pose it shows.
    pub fn tick(&mut self, platform: &Platform, input: &Input) -> (shown: Option<u16>)
        requires
            platform.wf(),
            old(self).wf(*platform),
        ensures
            (*final(self), shown) == step(*old(self), *platform, *input),
            final(self).wf(*platform),
    {
        proof {
            crate::laws::lemma_step_preserves_wf(*self, *platform, *input);
        }
        match self.motion {
            Motion::Grounded => {
                if input.jump.just_pressed {
                    self.motion = Motion::PreparingJump(Ordinal::First);
                    self.frame_timer = 0;
                    self.character_code = POSE_IDLE;
                    Some(POSE_CHARGE)
                } else {
                    self.walk(platform, input)
                }
            },
            Motion::PreparingJump(n) => self.charge(n),
            Motion::Airborne(n) => {
                if n == Ordinal::First && input.jump.just_pressed {
                    self.motion = Motion::PreparingJump(Ordinal::Second);
                    self.frame_timer = 0;
                    None
                } else {
                    self.fly(platform, input)
                }
            },
        }
    }

    /// Moves one pixel per held direction button and wraps around the screen.
    fn move_horizontally(&mut self, input: &Input)
        requires
            WRAP_LEFT <= old(self).x <= SCREEN_WIDTH,
        ensures
            *final(self) == moved(*old(self), *input),
    {
        if input.left.held {
            self.x = self.x - 1;
            self.facing_left = true;
        }
        if input.right.held {
            self.x = self.x + 1;
            self.facing_left = false;
        }
        if self.x < WRAP_LEFT {
            self.x = SCREEN_WIDTH;
        } else if self.x > SCREEN_WIDTH {
            self.x = WRAP_LEFT;
        }
    }

    /// Advances the walk animation of a grounded tick.
    fn animate(&mut self, input: &Input)
        requires
            old(self).frame_timer <= WALK_CADENCE,
            old(self).walk_phase < 4,
        ensures
            *final(self) == animated(*old(self), *input),
    {
        if input.left.just_pressed || input.right.just_pressed {
            self.walk_phase = 0;
            self.frame_timer = 0;
        }
        if input.left.just_released || input.right.just_released {
            self.character_code = POSE_IDLE;
        }
        if input.left.held || input.right.held {
            self.frame_timer = self.frame_timer + 1;
            if self.frame_timer > WALK_CADENCE {
                if self.walk_phase == 0 {
                    self.walk_phase = 1;
                    self.character_code = POSE_STRIDE_A;
                } else if self.walk_phase == 1 {
                    self.walk_phase = 2;
                    self.character_code = POSE_IDLE;
                } else if self.walk_phase == 2 {
                    self.walk_phase = 3;
                    self.character_code = POSE_STRIDE_B;
                } else {
                    self.walk_phase = 0;
                    self.character_code = POSE_IDLE;
                }
                self.frame_timer = 0;
            }
        }
    }

    /// A grounded tick that did not start a jump.
    fn walk(&mut self, platform: &Platform, input: &Input) -> (shown: Option<u16>)
        requires
            old(self).wf(*platform),
        ensures
            (*final(self), shown) == walk_step(*old(self), *platform, *input),
    {
        self.move_horizontally(input);
        self.animate(input);
        if self.y == platform.top_y && !platform.contains(self.x) {
            self.velocity = 0;
            self.motion = Motion::Airborne(Ordinal::First);
            self.walk_phase = 0;
            None
        } else {
            Some(self.character_code)
        }
    }

    /// A tick of jump charge for the jump of ordinal `n`.
    fn charge(&mut self, n: Ordinal) -> (shown: Option<u16>)
        requires
            old(self).frame_timer <= CHARGE_TICKS,
        ensures
            (*final(self), shown) == charge_step(*old(self), n),
    {
        self.frame_timer = self.frame_timer + 1;
        if self.frame_timer > CHARGE_TICKS {
            self.velocity = JUMP_IMPULSE;
            self.motion = Motion::Airborne(n);
        }
        Some(POSE_CHARGE)
    }

    /// An airborne tick that did not start the bonus jump.
    fn fly(&mut self, platform: &Platform, input: &Input) -> (shown: Option<u16>)
        requires
            platform.wf(),
            old(self).wf(*platform),
            old(self).motion is Airborne,
        ensures
            (*final(self), shown) == fly_step(*old(self), *platform, *input),
    {
        self.move_horizontally(input);
        if self.velocity > HANG_THRESHOLD && input.jump.held {
            self.velocity = self.velocity + HANG_BOOST;
        }
        self.y = self.y - velocity_pixels(self.velocity);
        let shown: u16 = if self.velocity < 0 {
            POSE_DESCENDING
        } else {
            POSE_ASCENDING
        };
        if self.y < 0 {
            self.y = 0;
            self.velocity = 0;
        }
        if self.velocity < 0 && platform.contains(self.x) && self.y > platform.top_y {
            self.y = platform.top_y;
            self.velocity = 0;
            self.motion = Motion::Grounded;
        } else if self.y > GROUND_Y {
            self.y = GROUND_Y;
            self.velocity = 0;
            self.motion = Motion::Grounded;
        } else {
            self.velocity = self.velocity - GRAVITY;
        }
        Some(shown)
    }
}

} // verus!
