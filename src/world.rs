use vstd::prelude::*;

verus! {

/// Width of the visible screen, in pixels.
pub const SCREEN_WIDTH: i32 = 240;

/// Leftmost horizontal position; walking past it wraps to `SCREEN_WIDTH`.
pub const WRAP_LEFT: i32 = -16;

/// Vertical position of the actor when standing on the ground (y grows downwards).
pub const GROUND_Y: i32 = 120;

/// Horizontal position of the actor when the game starts.
pub const START_X: i32 = 120;

/// Velocities are counted in tenths of a pixel per tick.
pub const VELOCITY_SCALE: i32 = 10;

/// Velocity lost to gravity on every airborne tick (0.3 pixel per tick).
pub const GRAVITY: i32 = 3;

/// Upward velocity given when a jump launches (4.0 pixels per tick).
pub const JUMP_IMPULSE: i32 = 40;

/// Above this velocity (0.5 pixel per tick) a held jump button extends the climb.
pub const HANG_THRESHOLD: i32 = 5;

/// Velocity added per tick by the hang-time assist (0.2 pixel per tick).
pub const HANG_BOOST: i32 = 2;

/// A lower bound on the velocity: within the screen's height, a falling actor
/// lands before its velocity drops below it.
pub const MIN_VELOCITY: i32 = -110;

/// A walk phase lasts while the frame timer does not exceed this many ticks.
pub const WALK_CADENCE: u16 = 5;

/// A jump charge lasts while the frame timer does not exceed this many ticks.
pub const CHARGE_TICKS: u16 = 3;

/// Centre of the apple the actor can stand on.
pub const APPLE_X: i32 = 160;

/// Half of the horizontal extent over which the apple can be stood on.
pub const APPLE_HALF_WIDTH: i32 = 12;

/// Height of the apple's standable surface above the ground.
pub const APPLE_HEIGHT: i32 = 13;

/// A raised ledge: the actor stands on it at `top_y` while its x lies in `x_min..=x_max`.
#[derive(Clone, Copy, Debug, PartialEq, Eq, Structural)]
pub struct Platform {
    pub x_min: i32,
    pub x_max: i32,
    pub top_y: i32,
}

impl Platform {
    /// The surface lies on screen and strictly above the ground.
    pub open spec fn wf(&self) -> bool {
        0 <= self.top_y < GROUND_Y
    }

    pub open spec fn spans(&self, x: int) -> bool {
        self.x_min <= x <= self.x_max
    }

    /// A platform over `x_min..=x_max` with its surface at `top_y`, or `None` when
    /// the surface is not on screen above the ground.
    pub fn new(x_min: i32, x_max: i32, top_y: i32) -> (r: Option<Platform>)
        ensures
            r is Some <==> 0 <= top_y < GROUND_Y,
            r matches Some(p) ==> p.x_min == x_min && p.x_max == x_max && p.top_y == top_y,
    {
        if 0 <= top_y && top_y < GROUND_Y {
            Some(Platform { x_min, x_max, top_y })
        } else {
            None
        }
    }

    /// The apple resting on the ground, centred at `APPLE_X`.
    pub fn apple() -> (p: Platform)
        ensures
            p.wf(),
            p.x_min == 148,
            p.x_max == 172,
            p.top_y == 107,
    {
        Platform {
            x_min: APPLE_X - APPLE_HALF_WIDTH,
            x_max: APPLE_X + APPLE_HALF_WIDTH,
            top_y: GROUND_Y - APPLE_HEIGHT,
        }
    }

    /// Whether the horizontal position `x` lies over the platform.
    pub fn contains(&self, x: i32) -> (r: bool)
        ensures
            r == self.spans(x as int),
    {
        self.x_min <= x && x <= self.x_max
    }
}

} // verus!
