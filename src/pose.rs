use vstd::prelude::*;

verus! {

/// Standing still.
pub const POSE_IDLE: u16 = 0;

/// First stride of the walk cycle.
pub const POSE_STRIDE_A: u16 = 2;

/// Second stride of the walk cycle.
pub const POSE_STRIDE_B: u16 = 4;

/// Crouching while a jump charges.
pub const POSE_CHARGE: u16 = 6;

/// In the air with a velocity of zero or upwards.
pub const POSE_ASCENDING: u16 = 8;

/// In the air with a downward velocity.
pub const POSE_DESCENDING: u16 = 10;

/// The animation tags of the sprite sheet.
#[derive(Clone, Copy, Debug, PartialEq, Eq, Structural)]
pub enum SpriteTag {
    Idle,
    Walking,
    Jumping,
}

/// One frame of one tag of the sprite sheet.
#[derive(Clone, Copy, Debug, PartialEq, Eq, Structural)]
pub struct SpriteFrame {
    pub tag: SpriteTag,
    pub frame: usize,
}

/// The poses a grounded actor shows.
pub open spec fn is_ground_pose(code: u16) -> bool {
    code == POSE_IDLE || code == POSE_STRIDE_A || code == POSE_STRIDE_B
}

/// The pose shown once the walk cycle has reached `phase`.
pub open spec fn walk_pose(phase: u8) -> u16 {
    if phase == 1 {
        POSE_STRIDE_A
    } else if phase == 3 {
        POSE_STRIDE_B
    } else {
        POSE_IDLE
    }
}

/// The pose shown in the air at vertical velocity `velocity`.
pub open spec fn airborne_pose(velocity: int) -> u16 {
    if velocity < 0 {
        POSE_DESCENDING
    } else {
        POSE_ASCENDING
    }
}

/// The sprite frame that displays a pose; any unknown code displays as idle.
pub open spec fn frame_of(code: u16) -> SpriteFrame {
    if code == POSE_STRIDE_A {
        SpriteFrame { tag: SpriteTag::Walking, frame: 0 }
    } else if code == POSE_STRIDE_B {
        SpriteFrame { tag: SpriteTag::Walking, frame: 2 }
    } else if code == POSE_CHARGE {
        SpriteFrame { tag: SpriteTag::Jumping, frame: 0 }
    } else if code == POSE_ASCENDING {
        SpriteFrame { tag: SpriteTag::Jumping, frame: 1 }
    } else if code == POSE_DESCENDING {
        SpriteFrame { tag: SpriteTag::Jumping, frame: 2 }
    } else {
        SpriteFrame { tag: SpriteTag::Idle, frame: 0 }
    }
}

/// Looks up the sprite frame that displays the pose `code`.
pub fn sprite_frame(code: u16) -> (r: SpriteFrame)
    ensures
        r == frame_of(code),
{
    match code {
        POSE_STRIDE_A => SpriteFrame { tag: SpriteTag::Walking, frame: 0 },
        POSE_STRIDE_B => SpriteFrame { tag: SpriteTag::Walking, frame: 2 },
        POSE_CHARGE => SpriteFrame { tag: SpriteTag::Jumping, frame: 0 },
        POSE_ASCENDING => SpriteFrame { tag: SpriteTag::Jumping, frame: 1 },
        POSE_DESCENDING => SpriteFrame { tag: SpriteTag::Jumping, frame: 2 },
        _ => SpriteFrame { tag: SpriteTag::Idle, frame: 0 },
    }
}

} // verus!
