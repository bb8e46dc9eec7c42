use renderer_rust::draw_properties::{DEFAULT_MODEL_INDEX, MODEL_COUNT};
use renderer_rust::DrawProperties;

fn documented_defaults() -> DrawProperties<f32> {
    DrawProperties::new(
        [0.5, 0.5, 0.5],
        [0.0, 0.0, 0.0],
        [0.0, 0.8, 1.0],
        [-0.5, -1.0, 0.0],
        60.0,
    )
}

#[test]
fn defaults_are_the_documented_ones() {
    let p = documented_defaults();
    assert!(!p.vsync_enabled);
    assert!(p.overlay_gui_enabled);
    assert_eq!(p.background_color, [0.5, 0.5, 0.5]);
    assert_eq!(p.model_rotation, [0.0, 0.0, 0.0]);
    assert_eq!(p.model_color, [0.0, 0.8, 1.0]);
    assert_eq!(p.light_direction, [-0.5, -1.0, 0.0]);
    assert_eq!(p.field_of_view, 60.0);
    assert_eq!(p.selected_model_index, 2);
    assert_eq!(DEFAULT_MODEL_INDEX, 2);
    assert_eq!(MODEL_COUNT, 3);
    assert!(p.skybox_enabled);
    assert!(!p.wireframe_mode_enabled);
    assert!(p.diffuse_enabled);
    assert!(p.specular_enabled);
}

#[test]
fn select_model_takes_only_loaded_models() {
    let mut p = documented_defaults();
    assert!(p.select_model(0, MODEL_COUNT));
    assert_eq!(p.selected_model_index, 0);
    assert!(!p.select_model(3, MODEL_COUNT));
    assert_eq!(p.selected_model_index, 0);
    assert!(!p.select_model(usize::MAX, MODEL_COUNT));
    assert_eq!(p.selected_model_index, 0);
    assert!(p.select_model(2, MODEL_COUNT));
    assert_eq!(p.selected_model_index, 2);
    assert!(!p.select_model(0, 0));
    assert_eq!(p.selected_model_index, 2);
}

#[test]
fn select_model_changes_nothing_else() {
    let mut p = documented_defaults();
    p.field_of_view = 90.0;
    p.wireframe_mode_enabled = true;
    p.select_model(1, MODEL_COUNT);
    assert_eq!(p.field_of_view, 90.0);
    assert!(p.wireframe_mode_enabled);
    assert_eq!(p.model_color, [0.0, 0.8, 1.0]);
}
