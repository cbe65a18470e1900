use custom3d::camera::CameraController;
use custom3d::camera::CameraResources;
use custom3d::camera::CameraUniform;
use custom3d::camera::InputSnapshot;
use custom3d::renderer::BindGroupKind;
use custom3d::renderer::PaintCmd;

fn identity_bytes() -> Vec<u8> {
    let mut v = vec![0u8; 64];
    for e in [0usize, 5, 10, 15] {
        // 1.0f32, little endian
        v[4 * e + 2] = 0x80;
        v[4 * e + 3] = 0x3f;
    }
    v
}

fn arbitrary_matrix_bytes() -> Vec<u8> {
    (0u8..64).collect()
}

#[test]
fn new_controller_has_no_key_pressed() {
    let c = CameraController::new();
    assert!(!c.is_forward_pressed);
    assert!(!c.is_backward_pressed);
    assert!(!c.is_left_pressed);
    assert!(!c.is_right_pressed);
}

#[test]
fn process_events_overwrites_and_does_not_accumulate() {
    let mut c = CameraController::new();
    c.process_events(&InputSnapshot {
        forward_pressed: true,
        backward_pressed: false,
        left_pressed: true,
        right_pressed: false,
    });
    assert!(c.is_forward_pressed);
    assert!(!c.is_backward_pressed);
    assert!(c.is_left_pressed);
    assert!(!c.is_right_pressed);
    // a key pressed last tick but not this tick is released again
    c.process_events(&InputSnapshot {
        forward_pressed: false,
        backward_pressed: true,
        left_pressed: false,
        right_pressed: false,
    });
    assert!(!c.is_forward_pressed);
    assert!(c.is_backward_pressed);
    assert!(!c.is_left_pressed);
    assert!(!c.is_right_pressed);
}

#[test]
fn fresh_uniform_holds_identity_matrix() {
    let u = CameraUniform::new();
    assert_eq!(u.view_proj.len(), 64);
    assert_eq!(u.view_proj, identity_bytes());
}

#[test]
fn uniform_update_replaces_buffer() {
    let mut u = CameraUniform::new();
    u.update_view_proj(arbitrary_matrix_bytes());
    assert_eq!(u.view_proj, arbitrary_matrix_bytes());
}

#[test]
fn uniform_update_twice_is_bit_identical() {
    let mut u = CameraUniform::new();
    u.update_view_proj(arbitrary_matrix_bytes());
    let after_once = u.view_proj.clone();
    u.update_view_proj(arbitrary_matrix_bytes());
    assert_eq!(u.view_proj, after_once);
}

#[test]
fn camera_resource_starts_stale_and_prepares() {
    let mut c = CameraResources::new();
    assert_eq!(c.camera_uniform.view_proj, identity_bytes());
    c.prepare(arbitrary_matrix_bytes());
    assert_eq!(c.camera_uniform.view_proj, arbitrary_matrix_bytes());
}

#[test]
fn camera_bind_group_holds_the_uniform_at_binding_0() {
    let (c, layout) = CameraResources::create_camera_bind_group();
    assert_eq!(layout.uniform_binding, 0);
    assert_eq!(c.camera_uniform.view_proj, identity_bytes());
}

#[test]
fn camera_paint_binds_slot_0() {
    let c = CameraResources::new();
    assert_eq!(
        c.paint(),
        vec![PaintCmd::SetBindGroup { slot: 0, group: BindGroupKind::Camera }]
    );
}
