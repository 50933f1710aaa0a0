//! Verified gameplay rules for a small 2D marble platformer.
//!
//! The game is a ball that rolls and jumps between a ramp and four walls.
//! A game engine draws it and a physics engine moves it; this library holds
//! the rules in between, each with a contract that Verus proves:
//!
//! - [`scene`] lays out the world once, before the first frame;
//! - [`keyboard`] samples the engine's keyboard resource every frame;
//! - [`input`] turns key states into what the player asks for;
//! - [`motion`] pushes, caps and launches the player's body;
//! - [`geometry`] holds the whole-unit vectors and sizes the others share.

pub mod geometry;
pub mod input;
pub mod keyboard;
pub mod motion;
pub mod scene;
