use gl_engine::camera::{Camera, FOV_MAX, FOV_MIN, PITCH_LIMIT, SENSITIVITY, YAW, ZOOM};
use gl_engine::input::{FrameActions, LookOffset};

#[test]
fn default_camera_looks_down_negative_z() {
    let c = Camera::default();
    assert_eq!(c.yaw, -90_000);
    assert_eq!(c.pitch, 0);
    assert_eq!(c.zoom, 45_000);
    assert_eq!(c.mouse_sensitivity, 100);
    assert_eq!((c.yaw, c.zoom, c.mouse_sensitivity), (YAW, ZOOM, SENSITIVITY));
}

#[test]
fn look_scales_by_sensitivity() {
    let mut c = Camera::default();
    c.move_mouse(30, -20);
    assert_eq!(c.yaw, -87_000);
    assert_eq!(c.pitch, -2_000);
}

#[test]
fn pitch_clamped_under_adversarial_deltas() {
    let mut c = Camera::default();
    c.move_mouse(0, 1_000);
    assert_eq!(c.pitch, 89_000);
    c.move_mouse(0, i64::MAX);
    assert_eq!(c.pitch, PITCH_LIMIT);
    c.move_mouse(i64::MIN, i64::MIN);
    assert_eq!(c.pitch, -PITCH_LIMIT);
    c.move_mouse(7, 3);
    assert_eq!(c.pitch, -88_700);
    let deltas = [i64::MAX, -5, 890, -891, i64::MIN, 12345, 0, -1_000_000];
    for (k, &d) in deltas.iter().enumerate() {
        c.move_mouse(d, deltas[(k + 3) % deltas.len()]);
        assert!(c.pitch >= -89_000 && c.pitch <= 89_000);
    }
}

#[test]
fn yaw_accumulates_without_wrapping() {
    let mut c = Camera::default();
    c.move_mouse(3_600, 0);
    assert_eq!(c.yaw, 270_000);
    c.move_mouse(3_600, 0);
    assert_eq!(c.yaw, 630_000);
    c.move_mouse(-10_000, 0);
    assert_eq!(c.yaw, -370_000);
    c.move_mouse(i64::MAX, 0);
    assert_eq!(c.yaw, i64::MAX);
    c.move_mouse(i64::MIN, 0);
    assert_eq!(c.yaw, i64::MIN);
    c.move_mouse(1, 0);
    assert_eq!(c.yaw, i64::MIN + 100);
}

#[test]
fn new_keeps_yaw_and_clamps_pitch() {
    let c = Camera::new(450_000, 100_000, 250);
    assert_eq!(c.yaw, 450_000);
    assert_eq!(c.pitch, 89_000);
    assert_eq!(c.mouse_sensitivity, 250);
    assert_eq!(c.zoom, ZOOM);
    let d = Camera::new(i64::MIN, i64::MIN, 1);
    assert_eq!(d.yaw, i64::MIN);
    assert_eq!(d.pitch, -89_000);
}

#[test]
fn zoom_narrows_by_scroll_and_clamps() {
    let mut c = Camera::default();
    c.change_fov(1_000);
    assert_eq!(c.zoom, 44_000);
    c.change_fov(-2_500);
    assert_eq!(c.zoom, 46_500);
    c.change_fov(100_000);
    assert_eq!(c.zoom, FOV_MIN);
    c.change_fov(i64::MIN);
    assert_eq!(c.zoom, FOV_MAX);
    c.change_fov(i64::MAX);
    assert_eq!(c.zoom, 1_000);
    for s in [3_000, -80_000, 74_000, i64::MIN, 17, i64::MAX] {
        c.change_fov(s);
        assert!(c.zoom >= 1_000 && c.zoom <= 75_000);
    }
}

#[test]
fn apply_frame_looks_then_zooms() {
    let mut c = Camera::default();
    let actions = FrameActions {
        move_forward: true,
        move_backward: false,
        move_left: false,
        move_right: false,
        zoom: Some(5_000),
        look: Some(LookOffset { dx: 10, dy: 10 }),
    };
    c.apply_frame(&actions);
    assert_eq!(c.yaw, -89_000);
    assert_eq!(c.pitch, 1_000);
    assert_eq!(c.zoom, 40_000);

    let idle = FrameActions { zoom: None, look: None, ..actions };
    let before = c;
    c.apply_frame(&idle);
    assert_eq!(c, before);
}
