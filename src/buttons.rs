use vstd::prelude::*;
use crate::camera_system::{view_after, CameraState, CameraView};

verus! {

/// The number of a button of the button bar.
#[derive(Clone, Copy, Debug, PartialEq, Eq, Structural)]
pub struct Id(pub u32);

/// What pressing a button of the button bar does.
#[derive(Clone, Copy, Debug, PartialEq, Eq, Structural)]
pub enum ButtonEffect {
    /// The camera moved to this view.
    Camera(CameraView),
    /// A cube is added to the scene.
    SpawnCube,
    /// The button has no effect.
    Nothing,
}

/// Handles a press of button `id`: button 1 alternates the camera
/// placement, button 2 adds a cube, any other button does nothing.
pub fn button_system(id: Id, state_camera: &mut CameraState) -> (r: ButtonEffect)
    ensures
        id.0 == 1 ==> final(state_camera).moved == !old(state_camera).moved && r
            == ButtonEffect::Camera(view_after(final(state_camera).moved)),
        id.0 == 2 ==> *final(state_camera) == *old(state_camera) && r == ButtonEffect::SpawnCube,
        id.0 != 1 && id.0 != 2 ==> *final(state_camera) == *old(state_camera) && r
            == ButtonEffect::Nothing,
{
    if id.0 == 1 {
        ButtonEffect::Camera(state_camera.toggle())
    } else if id.0 == 2 {
        ButtonEffect::SpawnCube
    } else {
        ButtonEffect::Nothing
    }
}

} // verus!
