//! The camera-follow feature's switches and decisions. The follow summary
//! itself (center of mass, bounds, average velocity) is computed on the
//! GPU and read back as floating-point data by the shell; this module
//! decides when that work runs and which camera updates its result
//! triggers.

use vstd::prelude::*;

verus! {

/// Switches of the camera-follow feature.
pub struct FollowModule {
    /// Whether the follow reduction runs and is read back each frame.
    pub enabled: bool,
    /// Whether the camera recenters on the scene's center of mass.
    pub center_of_mass: bool,
    /// Whether the camera rescales from the scene's bounding extent.
    pub auto_zoom: bool,
}

impl FollowModule {
    /// Follow starts switched off, with recentring preselected for when
    /// it is switched on and auto zoom off.
    pub fn new() -> (r: Self)
        ensures
            !r.enabled,
            r.center_of_mass,
            !r.auto_zoom,
    {
        FollowModule {
            enabled: false,
            center_of_mass: true,
            auto_zoom: false,
        }
    }

    /// Which camera updates to apply once the frame's readback resolved:
    /// each runs only while follow is enabled, the readback delivered
    /// data, and its own toggle is set. A failed readback is "no data
    /// this frame": both updates are skipped and prior state kept.
    pub fn camera_actions(&self, readback_ok: bool) -> (r: (bool, bool))
        ensures
            r.0 == (self.enabled && readback_ok && self.center_of_mass),
            r.1 == (self.enabled && readback_ok && self.auto_zoom),
    {
        (
            self.enabled && readback_ok && self.center_of_mass,
            self.enabled && readback_ok && self.auto_zoom,
        )
    }
}

} // verus!
