use vstd::prelude::*;

verus! {

/// The two fixed camera placements that the camera toggle alternates.
#[derive(Clone, Copy, Debug, PartialEq, Eq, Structural)]
pub enum CameraView {
    /// Straight down on the ground plane, where zoom and pan apply.
    TopDown,
    /// The angled perspective view.
    Perspective,
}

/// Whether the camera has been moved to the overhead placement.
#[derive(Clone, Copy, Debug, PartialEq, Eq, Structural)]
pub struct CameraState {
    pub moved: bool,
}

/// The view that a camera toggle leaves, given `moved` after it.
pub open spec fn view_after(moved: bool) -> CameraView {
    if moved {
        CameraView::TopDown
    } else {
        CameraView::Perspective
    }
}

impl CameraState {
    /// Alternates the placement and returns the view now in force.
    pub fn toggle(&mut self) -> (r: CameraView)
        ensures
            final(self).moved == !old(self).moved,
            r == view_after(final(self).moved),
    {
        let view = if !self.moved {
            CameraView::TopDown
        } else {
            CameraView::Perspective
        };
        self.moved = !self.moved;
        view
    }
}

impl Default for CameraState {
    fn default() -> (r: CameraState)
        ensures
            !r.moved,
    {
        CameraState { moved: false }
    }
}

/// Handles this frame's camera toggles, given by their count: each
/// alternates the placement. Returns the view in force after the last one,
/// or nothing when there was none.
pub fn handle_camera_toggle_events(toggle_events: usize, state_camera: &mut CameraState) -> (r:
    Option<CameraView>)
    ensures
        final(state_camera).moved == (old(state_camera).moved != (toggle_events % 2 == 1)),
        r == (if toggle_events == 0 {
            None
        } else {
            Some(view_after(final(state_camera).moved))
        }),
{
    let mut last: Option<CameraView> = None;
    let mut i: usize = 0;
    while i < toggle_events
        invariant
            i <= toggle_events,
            state_camera.moved == (old(state_camera).moved != (i % 2 == 1)),
            last == (if i == 0 {
                None
            } else {
                Some(view_after(state_camera.moved))
            }),
        decreases toggle_events - i,
    {
        last = Some(state_camera.toggle());
        i = i + 1;
    }
    last
}

/// Dragging with the secondary button pans the camera in the top-down view
/// only.
pub fn camera_drag_pan_system(is_top_view: bool, secondary_held: bool) -> (r: bool)
    ensures
        r == (is_top_view && secondary_held),
{
    is_top_view && secondary_held
}

} // verus!
