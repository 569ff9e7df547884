//! What a camera can be asked and what it answers, as plain values.

use vstd::prelude::*;

verus! {

/// A light that can follow the light around it.
#[derive(Clone, Copy, PartialEq, Eq, Structural, Debug)]
pub enum LightState {
    On,
    Off,
    Auto,
}

/// A movement of the camera.
#[derive(Clone, Copy, PartialEq, Eq, Structural, Debug)]
pub enum Direction {
    Up,
    Down,
    Left,
    Right,
    LeftUp,
    LeftDown,
    RightUp,
    RightDown,
    In,
    Out,
    Stop,
}

/// What a camera says about motion.
#[derive(Clone, Copy, PartialEq, Eq, Structural, Debug)]
pub enum MdState {
    Start,
    Stop,
    Unknown,
}

/// Why a camera could not be read.
#[derive(Clone, Copy, PartialEq, Eq, Structural, Debug)]
pub enum ReadFailure {
    /// Its reply was not understood.
    Unintelligible,
    /// It says it does not offer this.
    Unavailable,
    /// It did not answer.
    Other,
}

} // verus!
