use vstd::prelude::*;
use bevy::math::Vec3;
use crate::coordinate_systems::CoordinateSettings;
use crate::events::{AngleUnitChangeEvent, CoordinateSystemChangeEvent, UIAction, UIEvent};

verus! {

/// Where the cursor meets the ground plane.
///
/// `world_position` is this frame's point, or nothing when the cursor is
/// outside the window or its ray misses the plane; `is_valid` says whether
/// there is a point.
#[derive(Clone, Copy, Debug)]
pub struct CursorInfo {
    pub world_position: Option<Vec3>,
    pub is_valid: bool,
}

impl Default for CursorInfo {
    fn default() -> (r: CursorInfo)
        ensures
            r.world_position.is_none(),
            !r.is_valid,
    {
        CursorInfo { world_position: None, is_valid: false }
    }
}

impl CursorInfo {
    /// The cursor state after a frame in which the cursor was over the
    /// window or not, and its ray met the plane at `hit` or missed it.
    pub open spec fn spec_track(self, cursor_in_window: bool, hit: Option<Vec3>) -> CursorInfo {
        match hit {
            Some(p) if cursor_in_window => CursorInfo { world_position: Some(p), is_valid: true },
            _ => CursorInfo { world_position: None, is_valid: false },
        }
    }
}

/// Records this frame's cursor position on the ground plane.
pub fn track_cursor_position(
    cursor_in_window: bool,
    hit: Option<Vec3>,
    cursor_info: &mut CursorInfo,
)
    ensures
        *final(cursor_info) == old(cursor_info).spec_track(cursor_in_window, hit),
{
    match hit {
        Some(p) if cursor_in_window => {
            cursor_info.world_position = Some(p);
            cursor_info.is_valid = true;
        },
        _ => {
            cursor_info.world_position = None;
            cursor_info.is_valid = false;
        },
    }
}

/// The request raised by pressing a button: the two toggles ask for the
/// other value than the current setting; every other action raises its own
/// request.
pub open spec fn spec_interaction(action: UIAction, settings: CoordinateSettings) -> Option<
    UIEvent,
> {
    match action {
        UIAction::ToggleCoordinateSystem => Some(
            UIEvent::CoordinateSystem(
                CoordinateSystemChangeEvent {
                    new_system: settings.coordinate_system.spec_toggled(),
                },
            ),
        ),
        UIAction::ToggleAngleUnit => Some(
            UIEvent::AngleUnit(
                AngleUnitChangeEvent { new_unit: settings.angle_unit.spec_toggled() },
            ),
        ),
        _ => action.spec_event(),
    }
}

/// The request raised by pressing the button of `action`.
pub fn handle_ui_interactions(action: UIAction, settings: &CoordinateSettings) -> (r: Option<
    UIEvent,
>)
    ensures
        r == spec_interaction(action, *settings),
{
    match action {
        UIAction::ToggleCoordinateSystem => Some(
            UIEvent::CoordinateSystem(
                CoordinateSystemChangeEvent { new_system: settings.coordinate_system.toggled() },
            ),
        ),
        UIAction::ToggleAngleUnit => Some(
            UIEvent::AngleUnit(AngleUnitChangeEvent { new_unit: settings.angle_unit.toggled() }),
        ),
        _ => action.emit_events(),
    }
}

} // verus!
