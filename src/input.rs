use vstd::prelude::*;

verus! {

/// What one button did during a tick, sampled once at its start.
#[derive(Clone, Copy, Debug, PartialEq, Eq, Structural)]
pub struct ButtonState {
    /// The button is down.
    pub held: bool,
    /// The button went down during this tick.
    pub just_pressed: bool,
    /// The button went up during this tick.
    pub just_released: bool,
}

/// The three buttons the controller reads.
#[derive(Clone, Copy, Debug, PartialEq, Eq, Structural)]
pub struct Input {
    pub left: ButtonState,
    pub right: ButtonState,
    pub jump: ButtonState,
}

} // verus!
