//! The components an entity may carry and the movement commands that steer
//! the keyboard-controlled entity.

use crate::geometry::{Point, Rect};
use vstd::prelude::*;

verus! {

/// One of the four directions a character can face and move in.
#[derive(Clone, Copy, Debug, PartialEq, Eq, Structural)]
pub enum Direction {
    Up,
    Down,
    Left,
    Right,
}

/// Where an entity stands.
#[derive(Clone, Copy, Debug, PartialEq, Eq, Structural)]
pub struct Position(pub Point);

/// How fast an entity moves, and in which direction.
#[derive(Clone, Copy, Debug, PartialEq, Eq, Structural)]
pub struct Velocity {
    pub speed: i32,
    pub direction: Direction,
}

/// The region of a spritesheet that currently stands for an entity.
#[derive(Clone, Copy, Debug, PartialEq, Eq, Structural)]
pub struct Sprite {
    /// Index of the spritesheet to draw from.
    pub spritesheet: usize,
    /// Region of that spritesheet to draw.
    pub region: Rect,
}

/// The walking frames of a character, one list per direction, and the frame
/// currently shown.
#[derive(Debug)]
pub struct MovementAnimation {
    pub current_frame: usize,
    pub up_frames: Vec<Sprite>,
    pub down_frames: Vec<Sprite>,
    pub left_frames: Vec<Sprite>,
    pub right_frames: Vec<Sprite>,
}

/// Marks the entity that movement commands steer.
#[derive(Clone, Copy, Debug, PartialEq, Eq, Structural)]
pub struct KeyboardControlled;

/// What the player asked for in the last frame.
#[derive(Clone, Copy, Debug, PartialEq, Eq, Structural)]
pub enum MovementCommand {
    Stop,
    Move(Direction),
}

} // verus!
