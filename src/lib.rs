//! Editing state for a 3D line-sketching editor: coordinate display
//! settings, the two-click line gesture, camera mode control, render
//! toggles and the dispatch of UI commands, each as plain data with
//! transition functions whose contracts are proved.
pub mod buttons;
pub mod camera_system;
pub mod coordinate_systems;
pub mod events;
pub mod grid;
pub mod line_drawing;
pub mod orbit_camera;
pub mod render;
pub mod ui_panels;
pub mod world;
