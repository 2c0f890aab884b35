use vstd::prelude::*;

verus! {

/// Where a popup anchors on the screen.
#[derive(Clone, Copy, Debug, PartialEq, Eq, Structural)]
pub enum Origin {
    TopLeft,
    TopCenter,
    TopRight,
    BottomLeft,
    BottomCenter,
    BottomRight,
    Center,
    Hovered,
}

/// A displacement and size applied to a popup relative to its origin.
#[derive(Clone, Copy, Debug, PartialEq, Eq, Structural)]
pub struct Offset {
    pub x: i16,
    pub y: i16,
    pub width: u16,
    pub height: u16,
}

/// A fully resolved popup placement: an anchor plus a displacement and size.
#[derive(Clone, Copy, Debug, PartialEq, Eq, Structural)]
pub struct Position {
    pub origin: Origin,
    pub offset: Offset,
}

impl Offset {
    /// The placement of a one-line input box under its anchor.
    pub fn line() -> (r: Offset)
        ensures
            r == (Offset { x: 0, y: 1, width: 50, height: 3 }),
    {
        Offset { x: 0, y: 1, width: 50, height: 3 }
    }
}

impl Position {
    pub fn new(origin: Origin, offset: Offset) -> (r: Position)
        ensures
            r.origin == origin,
            r.offset == offset,
    {
        Position { origin, offset }
    }
}

} // verus!
