use vstd::prelude::*;

verus! {

/// The mode of the orbit camera: whether pointer input steers it, and
/// whether its placement must be recomputed.
#[derive(Clone, Copy, Debug, PartialEq, Eq, Structural)]
pub struct OrbitControl {
    pub enabled: bool,
    pub needs_update: bool,
}

impl Default for OrbitControl {
    fn default() -> (r: OrbitControl)
        ensures
            r == (OrbitControl { enabled: false, needs_update: true }),
    {
        OrbitControl { enabled: false, needs_update: true }
    }
}

/// What one frame of the orbit camera does with its input.
#[derive(Clone, Copy, Debug, PartialEq, Eq, Structural)]
pub enum OrbitFrame {
    /// The orbit camera is off: the motion gathered for it is thrown away.
    Discard,
    /// The orbit camera is on: turn the gathered motion into azimuth and
    /// elevation if `apply_motion`, and place the camera anew if
    /// `recompute`, which holds on every such frame so that a camera moved
    /// by another system is put back on its orbit.
    Update { apply_motion: bool, recompute: bool },
}

impl OrbitControl {
    pub fn mark_dirty(&mut self)
        ensures
            *final(self) == (OrbitControl { needs_update: true, ..*old(self) }),
    {
        self.needs_update = true;
    }
}

/// One frame of the orbit camera, given whether pointer motion arrived.
/// While the orbit camera is on, the camera is placed anew every frame.
pub fn orbit_camera_system(has_motion: bool, orbit: &mut OrbitControl) -> (r: OrbitFrame)
    ensures
        !old(orbit).enabled ==> r == OrbitFrame::Discard && *final(orbit) == *old(orbit),
        old(orbit).enabled ==> r == (OrbitFrame::Update {
            apply_motion: has_motion,
            recompute: true,
        }) && *final(orbit) == (OrbitControl { enabled: true, needs_update: false }),
{
    if !orbit.enabled {
        return OrbitFrame::Discard;
    }
    orbit.needs_update = false;
    OrbitFrame::Update { apply_motion: has_motion, recompute: true }
}

/// Handles the key that switches the orbit camera on and off.
pub fn toggle_orbit_mode_system(toggle_pressed: bool, orbit: &mut OrbitControl)
    ensures
        *final(orbit) == (if toggle_pressed {
            OrbitControl { enabled: !old(orbit).enabled, needs_update: true }
        } else {
            *old(orbit)
        }),
{
    if toggle_pressed {
        orbit.enabled = !orbit.enabled;
        orbit.mark_dirty();
    }
}

/// Handles the reset key. Returns whether radius, azimuth and elevation go
/// back to their defaults.
pub fn reset_orbit_camera_system(reset_pressed: bool, orbit: &mut OrbitControl) -> (r: bool)
    ensures
        r == reset_pressed,
        *final(orbit) == (if reset_pressed {
            OrbitControl { needs_update: true, ..*old(orbit) }
        } else {
            *old(orbit)
        }),
{
    if reset_pressed {
        orbit.mark_dirty();
    }
    reset_pressed
}

/// Handles this frame's wheel events, given by their count. Returns whether
/// they change the orbit radius; while the orbit camera is off they are
/// thrown away.
pub fn orbit_camera_zoom_system(wheel_events: usize, orbit: &mut OrbitControl) -> (r: bool)
    ensures
        r == old(orbit).enabled,
        *final(orbit) == (if old(orbit).enabled && wheel_events > 0 {
            OrbitControl { needs_update: true, ..*old(orbit) }
        } else {
            *old(orbit)
        }),
{
    if !orbit.enabled {
        return false;
    }
    if wheel_events > 0 {
        orbit.mark_dirty();
    }
    true
}

} // verus!
