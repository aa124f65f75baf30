use vstd::prelude::*;
use crate::events::{AngleUnitChangeEvent, CoordinateSystemChangeEvent};

verus! {

/// Which coordinate system the editor displays positions in.
#[derive(Clone, Copy, Debug, PartialEq, Eq, Structural)]
pub enum CoordinateSystem {
    Cartesian,
    Polar,
}

/// The unit in which angles are displayed.
#[derive(Clone, Copy, Debug, PartialEq, Eq, Structural)]
pub enum AngleUnit {
    Degrees,
    Radians,
}

impl CoordinateSystem {
    /// The other coordinate system.
    pub open spec fn spec_toggled(self) -> CoordinateSystem {
        match self {
            CoordinateSystem::Cartesian => CoordinateSystem::Polar,
            CoordinateSystem::Polar => CoordinateSystem::Cartesian,
        }
    }

    pub fn toggled(self) -> (r: CoordinateSystem)
        ensures
            r == self.spec_toggled(),
            r != self,
    {
        match self {
            CoordinateSystem::Cartesian => CoordinateSystem::Polar,
            CoordinateSystem::Polar => CoordinateSystem::Cartesian,
        }
    }
}

impl Default for CoordinateSystem {
    fn default() -> (r: CoordinateSystem)
        ensures
            r == CoordinateSystem::Cartesian,
    {
        CoordinateSystem::Cartesian
    }
}

impl AngleUnit {
    /// The other angle unit.
    pub open spec fn spec_toggled(self) -> AngleUnit {
        match self {
            AngleUnit::Degrees => AngleUnit::Radians,
            AngleUnit::Radians => AngleUnit::Degrees,
        }
    }

    pub fn toggled(self) -> (r: AngleUnit)
        ensures
            r == self.spec_toggled(),
            r != self,
    {
        match self {
            AngleUnit::Degrees => AngleUnit::Radians,
            AngleUnit::Radians => AngleUnit::Degrees,
        }
    }
}

impl Default for AngleUnit {
    fn default() -> (r: AngleUnit)
        ensures
            r == AngleUnit::Degrees,
    {
        AngleUnit::Degrees
    }
}

/// How positions and angles are displayed.
#[derive(Clone, Copy, Debug, PartialEq, Eq, Structural)]
pub struct CoordinateSettings {
    pub coordinate_system: CoordinateSystem,
    pub angle_unit: AngleUnit,
}

impl Default for CoordinateSettings {
    fn default() -> (r: CoordinateSettings)
        ensures
            r == (CoordinateSettings {
                coordinate_system: CoordinateSystem::Cartesian,
                angle_unit: AngleUnit::Degrees,
            }),
    {
        CoordinateSettings {
            coordinate_system: CoordinateSystem::Cartesian,
            angle_unit: AngleUnit::Degrees,
        }
    }
}

/// The coordinate system that `events` leave in place of `current`: the
/// last one requested, or `current` when there is none.
pub open spec fn system_after(
    current: CoordinateSystem,
    events: Seq<CoordinateSystemChangeEvent>,
) -> CoordinateSystem {
    if events.len() == 0 {
        current
    } else {
        events.last().new_system
    }
}

/// The angle unit that `events` leave in place of `current`: the last one
/// requested, or `current` when there is none.
pub open spec fn unit_after(current: AngleUnit, events: Seq<AngleUnitChangeEvent>) -> AngleUnit {
    if events.len() == 0 {
        current
    } else {
        events.last().new_unit
    }
}

/// Applies this frame's change requests in order, so the last of each kind
/// wins.
pub fn handle_coordinate_system_events(
    coordinate_events: &Vec<CoordinateSystemChangeEvent>,
    angle_events: &Vec<AngleUnitChangeEvent>,
    settings: &mut CoordinateSettings,
)
    ensures
        final(settings).coordinate_system == system_after(
            old(settings).coordinate_system,
            coordinate_events@,
        ),
        final(settings).angle_unit == unit_after(old(settings).angle_unit, angle_events@),
{
    let mut i: usize = 0;
    while i < coordinate_events.len()
        invariant
            i <= coordinate_events@.len(),
            settings.angle_unit == old(settings).angle_unit,
            settings.coordinate_system == system_after(
                old(settings).coordinate_system,
                coordinate_events@.take(i as int),
            ),
        decreases coordinate_events@.len() - i,
    {
        settings.coordinate_system = coordinate_events[i].new_system;
        i = i + 1;
    }
    assert(coordinate_events@.take(i as int) =~= coordinate_events@);
    let mut j: usize = 0;
    while j < angle_events.len()
        invariant
            j <= angle_events@.len(),
            settings.coordinate_system == system_after(
                old(settings).coordinate_system,
                coordinate_events@,
            ),
            settings.angle_unit == unit_after(old(settings).angle_unit, angle_events@.take(j as int)),
        decreases angle_events@.len() - j,
    {
        settings.angle_unit = angle_events[j].new_unit;
        j = j + 1;
    }
    assert(angle_events@.take(j as int) =~= angle_events@);
}

/// The requests raised by the keys that toggle the coordinate system and
/// the angle unit: each asks for the other value than the current one.
pub fn keyboard_coordinate_system(
    toggle_system_pressed: bool,
    toggle_unit_pressed: bool,
    settings: &CoordinateSettings,
) -> (r: (Option<CoordinateSystemChangeEvent>, Option<AngleUnitChangeEvent>))
    ensures
        r.0 == (if toggle_system_pressed {
            Some(
                CoordinateSystemChangeEvent {
                    new_system: settings.coordinate_system.spec_toggled(),
                },
            )
        } else {
            None
        }),
        r.1 == (if toggle_unit_pressed {
            Some(AngleUnitChangeEvent { new_unit: settings.angle_unit.spec_toggled() })
        } else {
            None
        }),
{
    let system_event = if toggle_system_pressed {
        Some(CoordinateSystemChangeEvent { new_system: settings.coordinate_system.toggled() })
    } else {
        None
    };
    let unit_event = if toggle_unit_pressed {
        Some(AngleUnitChangeEvent { new_unit: settings.angle_unit.toggled() })
    } else {
        None
    };
    (system_event, unit_event)
}

} // verus!
