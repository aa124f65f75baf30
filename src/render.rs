use vstd::prelude::*;
use vstd::string::*;

verus! {

/// The render toggles of the editor.
#[derive(Clone, Copy, Debug, PartialEq, Eq, Structural)]
pub struct RenderModes {
    pub wireframe_mode: bool,
    pub lighting_enabled: bool,
    pub shadows_enabled: bool,
    pub grid_visible: bool,
}

impl Default for RenderModes {
    fn default() -> (r: RenderModes)
        ensures
            r == (RenderModes {
                wireframe_mode: false,
                lighting_enabled: true,
                shadows_enabled: true,
                grid_visible: true,
            }),
    {
        RenderModes {
            wireframe_mode: false,
            lighting_enabled: true,
            shadows_enabled: true,
            grid_visible: true,
        }
    }
}

/// How a flag reads in the summary line.
pub open spec fn flag_text(b: bool) -> Seq<char> {
    if b {
        "true"@
    } else {
        "false"@
    }
}

/// The one-line summary of all render modes.
pub open spec fn info_text(m: RenderModes) -> Seq<char> {
    "Render modes - Wireframe: "@ + flag_text(m.wireframe_mode) + ", Lighting: "@ + flag_text(
        m.lighting_enabled,
    ) + ", Shadows: "@ + flag_text(m.shadows_enabled) + ", Grid: "@ + flag_text(m.grid_visible)
}

fn flag_str(b: bool) -> (r: &'static str)
    ensures
        r@ == flag_text(b),
{
    if b {
        "true"
    } else {
        "false"
    }
}

impl RenderModes {
    /// Point and directional lights cast shadows only while lighting is on.
    pub fn light_shadows(&self) -> (r: bool)
        ensures
            r == (self.shadows_enabled && self.lighting_enabled),
    {
        self.shadows_enabled && self.lighting_enabled
    }

    /// Materials are drawn unlit while lighting is off.
    pub fn materials_unlit(&self) -> (r: bool)
        ensures
            r == !self.lighting_enabled,
    {
        !self.lighting_enabled
    }

    pub fn get_info(&self) -> (r: String)
        ensures
            r@ == info_text(*self),
    {
        let mut s = String::from_str("Render modes - Wireframe: ");
        s.append(flag_str(self.wireframe_mode));
        s.append(", Lighting: ");
        s.append(flag_str(self.lighting_enabled));
        s.append(", Shadows: ");
        s.append(flag_str(self.shadows_enabled));
        s.append(", Grid: ");
        s.append(flag_str(self.grid_visible));
        s
    }
}

/// Handles the four render keys: each flips its mode. Returns whether any
/// mode changed.
pub fn toggle_render_mode_system(
    wireframe_pressed: bool,
    lighting_pressed: bool,
    shadows_pressed: bool,
    grid_pressed: bool,
    render_modes: &mut RenderModes,
) -> (r: bool)
    ensures
        r == (wireframe_pressed || lighting_pressed || shadows_pressed || grid_pressed),
        final(render_modes).wireframe_mode == (old(render_modes).wireframe_mode != wireframe_pressed),
        final(render_modes).lighting_enabled == (old(render_modes).lighting_enabled
            != lighting_pressed),
        final(render_modes).shadows_enabled == (old(render_modes).shadows_enabled
            != shadows_pressed),
        final(render_modes).grid_visible == (old(render_modes).grid_visible != grid_pressed),
{
    let mut changed = false;
    if wireframe_pressed {
        render_modes.wireframe_mode = !render_modes.wireframe_mode;
        changed = true;
    }
    if lighting_pressed {
        render_modes.lighting_enabled = !render_modes.lighting_enabled;
        changed = true;
    }
    if shadows_pressed {
        render_modes.shadows_enabled = !render_modes.shadows_enabled;
        changed = true;
    }
    if grid_pressed {
        render_modes.grid_visible = !render_modes.grid_visible;
        changed = true;
    }
    changed
}

} // verus!
