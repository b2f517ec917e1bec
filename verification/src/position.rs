use vstd::prelude::*;

verus! {

/// An absolute pixel offset from the screen's top-left origin.
#[derive(Debug, Clone, Copy, PartialEq, Eq, Structural)]
pub struct Position {
    pub x: i32,
    pub y: i32,
}

impl Position {
    /// True when the offset lies at or below/right of the origin.
    pub open spec fn wf(self) -> bool {
        0 <= self.x && 0 <= self.y
    }

    pub fn new(x: i32, y: i32) -> (r: Position)
        ensures
            r.x == x,
            r.y == y,
    {
        Position { x, y }
    }
}

} // verus!
