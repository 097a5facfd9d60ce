//! Integer points and rectangles in pixel units; `y` grows downward.

use vstd::prelude::*;
use crate::model::Vector;

verus! {

/// A pair of pixel coordinates, used for positions and for velocities.
#[derive(Clone, Copy, Debug, PartialEq, Eq, Structural)]
pub struct Point {
    pub x: i16,
    pub y: i16,
}

impl View for Point {
    type V = Vector;

    open spec fn view(&self) -> Vector {
        Vector { x: self.x as int, y: self.y as int }
    }
}

/// An axis-aligned rectangle in pixel units.
#[derive(Clone, Copy, Debug, PartialEq, Eq, Structural)]
pub struct Rect {
    pub x: i16,
    pub y: i16,
    pub width: i16,
    pub height: i16,
}

} // verus!
