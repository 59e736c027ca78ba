//! The switches that a viewer of the scene can set.

use vstd::prelude::*;

verus! {

/// What the viewer switched on. Everything starts switched off.
#[derive(Clone, Copy, Debug, PartialEq, Eq, Structural)]
pub struct Settings {
    pub move_cars: bool,
    pub wireframe_enabled: bool,
    pub shadow_maps_enabled: bool,
}

impl Settings {
    pub open spec fn all_off() -> Settings {
        Settings { move_cars: false, wireframe_enabled: false, shadow_maps_enabled: false }
    }
}

impl Default for Settings {
    fn default() -> (s: Settings)
        ensures
            s == Settings::all_off(),
    {
        Settings { move_cars: false, wireframe_enabled: false, shadow_maps_enabled: false }
    }
}

} // verus!
