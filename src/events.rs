use vstd::prelude::*;
use bevy::math::Vec3;
use crate::coordinate_systems::{AngleUnit, CoordinateSystem};

verus! {

/// Switch between the overhead and the angled camera.
#[derive(Clone, Copy, Debug, PartialEq, Eq, Structural)]
pub struct CameraToggleEvent;

/// Bring the camera zoom back to its default level.
#[derive(Clone, Copy, Debug, PartialEq, Eq, Structural)]
pub struct CameraResetEvent;

/// Display positions in `new_system` from now on.
#[derive(Clone, Copy, Debug, PartialEq, Eq, Structural)]
pub struct CoordinateSystemChangeEvent {
    pub new_system: CoordinateSystem,
}

/// Display angles in `new_unit` from now on.
#[derive(Clone, Copy, Debug, PartialEq, Eq, Structural)]
pub struct AngleUnitChangeEvent {
    pub new_unit: AngleUnit,
}

/// Turn the line tool on.
#[derive(Clone, Copy, Debug, PartialEq, Eq, Structural)]
pub struct CreateLineEvent;

/// Remove every line and endpoint marker and restart the numbering.
#[derive(Clone, Copy, Debug, PartialEq, Eq, Structural)]
pub struct DeleteAllLinesEvent;

/// A line was completed.
#[derive(Clone, Copy, Debug)]
pub struct LineCreatedEvent {
    pub line_id: u32,
    pub start: Vec3,
    pub end: Vec3,
}

/// A gesture point was placed: the start of a line or its end.
#[derive(Clone, Copy, Debug)]
pub struct PointSelectedEvent {
    pub point: Vec3,
    pub is_start: bool,
}

/// Use `new_step` hundredths of a world unit as the spacing of grid lines.
#[derive(Clone, Copy, Debug, PartialEq, Eq, Structural)]
pub struct GridStepChangeEvent {
    pub new_step: u32,
}

/// What a button of the panels stands for.
#[derive(Clone, Copy, Debug, PartialEq, Eq, Structural)]
pub enum UIAction {
    CreateLine,
    DeleteAll,
    ToggleCoordinateSystem,
    SetCartesian,
    SetPolar,
    ToggleAngleUnit,
    SetDegrees,
    SetRadians,
    /// A grid step in hundredths of a world unit.
    SetGridStep(u32),
    ToggleCamera,
    ResetCamera,
}

/// A request raised by a button, for the handler of its kind.
#[derive(Clone, Copy, Debug, PartialEq, Eq, Structural)]
pub enum UIEvent {
    CoordinateSystem(CoordinateSystemChangeEvent),
    AngleUnit(AngleUnitChangeEvent),
    CreateLine(CreateLineEvent),
    DeleteAllLines(DeleteAllLinesEvent),
    GridStep(GridStepChangeEvent),
    CameraToggle(CameraToggleEvent),
    CameraReset(CameraResetEvent),
}

impl UIAction {
    /// The request that an action raises on its own; the two toggles need
    /// the current settings and raise none here.
    pub open spec fn spec_event(self) -> Option<UIEvent> {
        match self {
            UIAction::CreateLine => Some(UIEvent::CreateLine(CreateLineEvent)),
            UIAction::DeleteAll => Some(UIEvent::DeleteAllLines(DeleteAllLinesEvent)),
            UIAction::ToggleCoordinateSystem => None,
            UIAction::SetCartesian => Some(
                UIEvent::CoordinateSystem(
                    CoordinateSystemChangeEvent { new_system: CoordinateSystem::Cartesian },
                ),
            ),
            UIAction::SetPolar => Some(
                UIEvent::CoordinateSystem(
                    CoordinateSystemChangeEvent { new_system: CoordinateSystem::Polar },
                ),
            ),
            UIAction::ToggleAngleUnit => None,
            UIAction::SetDegrees => Some(
                UIEvent::AngleUnit(AngleUnitChangeEvent { new_unit: AngleUnit::Degrees }),
            ),
            UIAction::SetRadians => Some(
                UIEvent::AngleUnit(AngleUnitChangeEvent { new_unit: AngleUnit::Radians }),
            ),
            UIAction::SetGridStep(step) => Some(
                UIEvent::GridStep(GridStepChangeEvent { new_step: step }),
            ),
            UIAction::ToggleCamera => Some(UIEvent::CameraToggle(CameraToggleEvent)),
            UIAction::ResetCamera => Some(UIEvent::CameraReset(CameraResetEvent)),
        }
    }

    pub fn emit_events(&self) -> (r: Option<UIEvent>)
        ensures
            r == self.spec_event(),
    {
        match *self {
            UIAction::CreateLine => Some(UIEvent::CreateLine(CreateLineEvent)),
            UIAction::DeleteAll => Some(UIEvent::DeleteAllLines(DeleteAllLinesEvent)),
            UIAction::ToggleCoordinateSystem => None,
            UIAction::SetCartesian => Some(
                UIEvent::CoordinateSystem(
                    CoordinateSystemChangeEvent { new_system: CoordinateSystem::Cartesian },
                ),
            ),
            UIAction::SetPolar => Some(
                UIEvent::CoordinateSystem(
                    CoordinateSystemChangeEvent { new_system: CoordinateSystem::Polar },
                ),
            ),
            UIAction::ToggleAngleUnit => None,
            UIAction::SetDegrees => Some(
                UIEvent::AngleUnit(AngleUnitChangeEvent { new_unit: AngleUnit::Degrees }),
            ),
            UIAction::SetRadians => Some(
                UIEvent::AngleUnit(AngleUnitChangeEvent { new_unit: AngleUnit::Radians }),
            ),
            UIAction::SetGridStep(step) => Some(
                UIEvent::GridStep(GridStepChangeEvent { new_step: step }),
            ),
            UIAction::ToggleCamera => Some(UIEvent::CameraToggle(CameraToggleEvent)),
            UIAction::ResetCamera => Some(UIEvent::CameraReset(CameraResetEvent)),
        }
    }
}

} // verus!
