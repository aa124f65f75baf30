use vstd::prelude::*;
use crate::events::GridStepChangeEvent;

verus! {

/// What to do with the grid entities in one frame.
#[derive(Clone, Copy, Debug, PartialEq, Eq, Structural)]
pub struct GridUpdatePlan {
    /// Remove the grid lines and axes that exist.
    pub despawn_existing: bool,
    /// Drop the cached grid materials.
    pub drop_materials: bool,
    /// Build the grid again.
    pub spawn_grid: bool,
}

/// Decides how the grid follows a change of its settings or of the render
/// modes. Nothing is done when neither changed.
pub fn update_grid_system(
    settings_changed: bool,
    render_changed: bool,
    grid_visible: bool,
    has_materials: bool,
) -> (r: Option<GridUpdatePlan>)
    ensures
        r == (if !settings_changed && !render_changed {
            None
        } else {
            Some(
                GridUpdatePlan {
                    despawn_existing: settings_changed || (render_changed && !grid_visible),
                    drop_materials: settings_changed && has_materials,
                    spawn_grid: grid_visible,
                },
            )
        }),
{
    if !settings_changed && !render_changed {
        return None;
    }
    let despawn_existing = settings_changed || (render_changed && !grid_visible);
    Some(
        GridUpdatePlan {
            despawn_existing,
            drop_materials: settings_changed && has_materials,
            spawn_grid: grid_visible,
        },
    )
}

/// The visibility that grid entities take after a change of the render
/// modes, or nothing when they did not change.
pub fn toggle_grid_visibility(render_changed: bool, grid_visible: bool) -> (r: Option<bool>)
    ensures
        r == (if render_changed {
            Some(grid_visible)
        } else {
            None
        }),
{
    if render_changed {
        Some(grid_visible)
    } else {
        None
    }
}

/// The grid step, in hundredths of a world unit, that this frame's events
/// set: the last one requested, or nothing when there is none.
pub fn handle_grid_step_events(grid_events: &Vec<GridStepChangeEvent>) -> (r: Option<u32>)
    ensures
        r == (if grid_events@.len() == 0 {
            None
        } else {
            Some(grid_events@.last().new_step)
        }),
{
    let n = grid_events.len();
    if n == 0 {
        None
    } else {
        Some(grid_events[n - 1].new_step)
    }
}

} // verus!
