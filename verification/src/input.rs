use vstd::prelude::*;

verus! {

/// What the window and the pointing devices report for one frame.
#[derive(Clone, Copy, Debug, PartialEq, Eq, Structural)]
pub struct PointerInput {
    /// Whether there is a primary window to point into.
    pub has_window: bool,
    /// The primary mouse button went down in this frame.
    pub mouse_just_pressed: bool,
    /// Some touch began in this frame.
    pub touch_just_pressed: bool,
    /// The primary mouse button came up in this frame.
    pub mouse_just_released: bool,
    /// Some touch ended in this frame.
    pub touch_just_released: bool,
}

impl PointerInput {
    /// A press edge: the button went down or a touch began.
    pub open spec fn clicked(self) -> bool {
        self.mouse_just_pressed || self.touch_just_pressed
    }

    /// A release edge: the button came up or a touch ended.
    pub open spec fn released(self) -> bool {
        self.mouse_just_released || self.touch_just_released
    }

    pub fn mouse_clicked(&self) -> (edge: bool)
        ensures
            edge == self.clicked(),
    {
        self.mouse_just_pressed || self.touch_just_pressed
    }

    pub fn mouse_released(&self) -> (edge: bool)
        ensures
            edge == self.released(),
    {
        self.mouse_just_released || self.touch_just_released
    }
}

} // verus!
