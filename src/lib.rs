//! A small winter platformer's game rules in fixed-point arithmetic:
//! player physics against level boundaries, walking and jumping, camera
//! follow, the two-room level machine, the scripted dialogue sequencer and
//! the falling snow.
//!
//! Distances are measured in sub-pixels ([`geom::SUBPIXELS`] to a pixel) and
//! speeds in sub-pixels per simulation tick ([`geom::TICKS_PER_SECOND`] ticks
//! to a second). At this scale every motion constant of the game is a whole
//! number, so a tick of motion is an exact integer addition.

pub mod geom;
pub mod physics;
pub mod levels;
pub mod snowflakes;
pub mod dialogue;
pub mod player;
pub mod camera;
pub mod assets;
