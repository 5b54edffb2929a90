//! Sprite animation and a small entity-component world: directional
//! spritesheet frames, keyboard-driven velocities, movement and frame
//! advance, and the draw list for one frame.

pub mod geometry;
pub mod components;
pub mod animation;
pub mod systems;
pub mod world;
pub mod renderer;
pub mod store;
