//! Whole-unit vectors and sizes shared by the scene and the motion rules.

use vstd::prelude::*;

verus! {

/// A pair of whole units along the x and y axes: a position, a velocity or a
/// force, depending on where it stands.
#[derive(Clone, Copy, Debug, PartialEq, Eq, Structural)]
pub struct Vector2 {
    pub x: i32,
    pub y: i32,
}

/// The extent of a rectangle in whole units.
#[derive(Clone, Copy, Debug, PartialEq, Eq, Structural)]
pub struct Size {
    pub width: i32,
    pub height: i32,
}

} // verus!
