//! The controller-state model platforms consume: plain button and axis
//! names, and the per-player button snapshot a platform translates into
//! its own peripheral registers.

use vstd::prelude::*;

verus! {

/// Every button a controller can report.
#[derive(Debug, Clone, Copy, PartialEq, Eq, Hash, Structural)]
pub enum InputButton {
    Up,
    Down,
    Left,
    Right,
    A,
    B,
    X,
    Y,
    L,
    R,
    Start,
    Select,
    L1,
    R1,
    L2,
    R2,
    L3,
    R3,
    Home,
    Back,
    Menu,
}

/// Every axis a controller can report.
#[derive(Debug, Clone, Copy, PartialEq, Eq, Hash, Structural)]
pub enum InputAxis {
    LeftX,
    LeftY,
    RightX,
    RightY,
    L2,
    R2,
}

/// Description of a connected controller.
#[derive(Debug)]
pub struct ControllerInfo {
    pub name: String,
    pub connected: bool,
    pub button_count: usize,
    pub axis_count: usize,
}

/// The button snapshot of one player's pad, as a platform reads it between
/// steps.
#[derive(Debug, Clone, Copy, PartialEq, Eq, Structural)]
pub struct PadState {
    pub up: bool,
    pub down: bool,
    pub left: bool,
    pub right: bool,
    pub fire: bool,
    pub select: bool,
    pub start: bool,
}

impl PadState {
    /// A pad with nothing pressed.
    pub fn released() -> (r: PadState)
        ensures
            r == (PadState {
                up: false,
                down: false,
                left: false,
                right: false,
                fire: false,
                select: false,
                start: false,
            }),
    {
        PadState {
            up: false,
            down: false,
            left: false,
            right: false,
            fire: false,
            select: false,
            start: false,
        }
    }
}

} // verus!
