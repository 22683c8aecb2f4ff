use vstd::prelude::*;

verus! {

/// A position or direction in world space. Each coordinate is kept as the bit
/// pattern of its single-precision value, so two points are equal exactly when
/// they are the same three bit patterns.
#[derive(Clone, Copy, Debug, PartialEq, Eq, Structural)]
pub struct WorldPoint {
    pub x: u32,
    pub y: u32,
    pub z: u32,
}

impl WorldPoint {
    /// The origin: all three coordinates are positive zero.
    pub open spec fn zero() -> WorldPoint {
        WorldPoint { x: 0, y: 0, z: 0 }
    }

    pub fn new(x: u32, y: u32, z: u32) -> (p: WorldPoint)
        ensures
            p == (WorldPoint { x, y, z }),
    {
        WorldPoint { x, y, z }
    }

    pub fn origin() -> (p: WorldPoint)
        ensures
            p == WorldPoint::zero(),
    {
        WorldPoint { x: 0, y: 0, z: 0 }
    }
}

impl Default for WorldPoint {
    fn default() -> (p: WorldPoint)
        ensures
            p == WorldPoint::zero(),
    {
        WorldPoint::origin()
    }
}

/// A half-line in world space.
#[derive(Clone, Copy, Debug, PartialEq, Eq, Structural)]
pub struct WorldRay {
    pub origin: WorldPoint,
    pub direction: WorldPoint,
}

/// A position in a window, each coordinate kept as the bit pattern of its
/// single-precision value.
#[derive(Clone, Copy, Debug, PartialEq, Eq, Structural)]
pub struct ScreenPoint {
    pub x: u32,
    pub y: u32,
}

impl ScreenPoint {
    /// The corner of the window: both coordinates are positive zero.
    pub open spec fn zero() -> ScreenPoint {
        ScreenPoint { x: 0, y: 0 }
    }
}

/// The position from which a camera's ray starts out: that of the cursor, or
/// the corner of the window while the cursor is outside it.
pub fn mouse_position(cursor: Option<ScreenPoint>) -> (position: ScreenPoint)
    ensures
        position == (match cursor {
            Some(at) => at,
            None => ScreenPoint::zero(),
        }),
{
    match cursor {
        Some(at) => at,
        None => ScreenPoint { x: 0, y: 0 },
    }
}

} // verus!
