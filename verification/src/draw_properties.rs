//! The parameters the user can change while the viewer runs.
//!
//! The control panel writes them and the renderer reads them, once each per
//! frame. Colours, angles and directions are scalars of the host's choosing:
//! the library stores them and hands them back unchanged, and never computes
//! with them.

use vstd::prelude::*;

verus! {

/// How many meshes the viewer offers.
pub const MODEL_COUNT: usize = 3;

/// The mesh that is shown at start.
pub const DEFAULT_MODEL_INDEX: usize = 2;

/// What to draw and how, with `S` as the scalar type of the continuous
/// parameters.
pub struct DrawProperties<S> {
    /// Whether presentation waits for the display's vertical refresh.
    pub vsync_enabled: bool,
    /// Whether the control panel is drawn over the scene.
    pub overlay_gui_enabled: bool,
    /// Red, green and blue of the background where no skybox is drawn.
    pub background_color: [S; 3],
    /// Rotation of the model about the x, y and z axes, in degrees.
    pub model_rotation: [S; 3],
    /// Red, green and blue of the model's surface.
    pub model_color: [S; 3],
    /// Direction in which the light travels.
    pub light_direction: [S; 3],
    /// Vertical field of view, in degrees.
    pub field_of_view: S,
    /// Which of the loaded meshes is shown.
    pub selected_model_index: usize,
    pub skybox_enabled: bool,
    pub wireframe_mode_enabled: bool,
    pub diffuse_enabled: bool,
    pub specular_enabled: bool,
}

impl<S> DrawProperties<S> {
    /// The selected mesh is one of `model_count` loaded meshes.
    pub open spec fn selects_within(self, model_count: nat) -> bool {
        self.selected_model_index < model_count
    }

    /// The parameters the viewer starts with: the last of the three meshes
    /// under a skybox, filled, lit with both terms, the control panel shown
    /// and presentation not waiting for the display. The continuous
    /// parameters are the ones given.
    pub fn new(
        background_color: [S; 3],
        model_rotation: [S; 3],
        model_color: [S; 3],
        light_direction: [S; 3],
        field_of_view: S,
    ) -> (props: Self)
        ensures
            props.background_color == background_color,
            props.model_rotation == model_rotation,
            props.model_color == model_color,
            props.light_direction == light_direction,
            props.field_of_view == field_of_view,
            props.selected_model_index == DEFAULT_MODEL_INDEX,
            props.selects_within(MODEL_COUNT as nat),
            !props.vsync_enabled,
            props.overlay_gui_enabled,
            props.skybox_enabled,
            !props.wireframe_mode_enabled,
            props.diffuse_enabled,
            props.specular_enabled,
    {
        DrawProperties {
            vsync_enabled: false,
            overlay_gui_enabled: true,
            background_color,
            model_rotation,
            model_color,
            light_direction,
            field_of_view,
            selected_model_index: DEFAULT_MODEL_INDEX,
            skybox_enabled: true,
            wireframe_mode_enabled: false,
            diffuse_enabled: true,
            specular_enabled: true,
        }
    }

    /// Selects mesh `index` if it is one of `model_count` meshes, and says
    /// whether it did. A selection that was within `model_count` before the
    /// call is within it afterwards whatever `index` is, and nothing but the
    /// selection ever changes.
    pub fn select_model(&mut self, index: usize, model_count: usize) -> (selected: bool)
        ensures
            selected == (index < model_count),
            final(self).selected_model_index == (if selected {
                index
            } else {
                old(self).selected_model_index
            }),
            old(self).selects_within(model_count as nat) ==> final(self).selects_within(
                model_count as nat,
            ),
            final(self).vsync_enabled == old(self).vsync_enabled,
            final(self).overlay_gui_enabled == old(self).overlay_gui_enabled,
            final(self).background_color == old(self).background_color,
            final(self).model_rotation == old(self).model_rotation,
            final(self).model_color == old(self).model_color,
            final(self).light_direction == old(self).light_direction,
            final(self).field_of_view == old(self).field_of_view,
            final(self).skybox_enabled == old(self).skybox_enabled,
            final(self).wireframe_mode_enabled == old(self).wireframe_mode_enabled,
            final(self).diffuse_enabled == old(self).diffuse_enabled,
            final(self).specular_enabled == old(self).specular_enabled,
    {
        if index < model_count {
            self.selected_model_index = index;
            true
        } else {
            false
        }
    }
}

} // verus!
