use vstd::prelude::*;

verus! {

/// What the resolver looks for, and how precisely it reports it.
///
/// A point switch is meant to be on only together with its detection switch.
/// The resolver does not insist on it: it follows each switch as it stands,
/// and `is_consistent` tells whether the two pairs agree.
#[derive(Clone, Copy, Debug, PartialEq, Eq, Structural)]
pub struct PluginConfig {
    /// Look for the object under the pointer and mark it `Hovered`.
    pub hover_enabled: bool,
    /// Report where the ray met a hovered object, not the origin.
    pub hover_point_enabled: bool,
    /// Look for the object under a press and mark it `Pressed`.
    pub press_enabled: bool,
    /// Report where the ray met a pressed object, not the origin.
    pub press_point_enabled: bool,
}

impl PluginConfig {
    /// Every point switch that is on has its detection switch on too.
    pub open spec fn consistent(self) -> bool {
        &&& self.hover_point_enabled ==> self.hover_enabled
        &&& self.press_point_enabled ==> self.press_enabled
    }

    pub fn is_consistent(&self) -> (b: bool)
        ensures
            b == self.consistent(),
    {
        (!self.hover_point_enabled || self.hover_enabled) && (!self.press_point_enabled
            || self.press_enabled)
    }
}

impl Default for PluginConfig {
    /// Everything is switched on.
    fn default() -> (config: PluginConfig)
        ensures
            config == (PluginConfig {
                hover_enabled: true,
                hover_point_enabled: true,
                press_enabled: true,
                press_point_enabled: true,
            }),
    {
        PluginConfig {
            hover_enabled: true,
            hover_point_enabled: true,
            press_enabled: true,
            press_point_enabled: true,
        }
    }
}

} // verus!
