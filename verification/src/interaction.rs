use vstd::prelude::*;
use crate::point::WorldPoint;

verus! {

/// What the pointer is doing to one object. A state is replaced as a whole,
/// never merged with the one before it.
#[derive(Clone, Copy, Debug, PartialEq, Eq, Structural)]
pub enum Interaction3d {
    /// The pointer does nothing to the object.
    Idle,
    /// The primary button or a touch went down over the object, at this point.
    Pressed(WorldPoint),
    /// The pointer rests over the object, at this point.
    Hovered(WorldPoint),
}

impl Interaction3d {
    pub open spec fn pressed(self) -> bool {
        self is Pressed
    }

    pub open spec fn hovered(self) -> bool {
        self is Hovered
    }

    pub fn is_pressed(&self) -> (b: bool)
        ensures
            b == self.pressed(),
    {
        match self {
            Interaction3d::Pressed(_) => true,
            _ => false,
        }
    }

    pub fn is_hovered(&self) -> (b: bool)
        ensures
            b == self.hovered(),
    {
        match self {
            Interaction3d::Hovered(_) => true,
            _ => false,
        }
    }
}

impl Default for Interaction3d {
    fn default() -> (state: Interaction3d)
        ensures
            state == Interaction3d::Idle,
    {
        Interaction3d::Idle
    }
}

} // verus!
