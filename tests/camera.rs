use solar_system::camera::{
    Camera, CameraController, Key, Motion, Projection, CAMERA_SENSITIVITY, CAMERA_SPEED,
    INITIAL_PITCH, INITIAL_YAW, MICROS_PER_SECOND, SAFE_PITCH,
};

#[test]
fn forward_key_for_one_second_moves_four_units_along_forward() {
    let mut camera = Camera::new(INITIAL_YAW, INITIAL_PITCH);
    let mut controller = CameraController::new(CAMERA_SPEED, CAMERA_SENSITIVITY);
    assert!(controller.process_keyboard(Key::KeyW, true));
    let motion = controller.update_camera(&mut camera, MICROS_PER_SECOND);
    assert_eq!(motion, Motion { forward: 4_000_000, right: 0, up: 0 });
    assert_eq!(camera, Camera::new(-90_000_000, -20_000_000));
    // The forward vector of that orientation, as the renderer computes it.
    let (yaw, pitch) = ((-90.0f64).to_radians(), (-20.0f64).to_radians());
    let forward = (pitch.cos() * yaw.cos(), pitch.sin(), pitch.cos() * yaw.sin());
    let step = motion.forward as f64 / 1e6;
    assert!((step * forward.1 - 4.0 * (-20.0f64).to_radians().sin()).abs() < 1e-9);
    assert!((step * forward.2 + 4.0 * (20.0f64).to_radians().cos()).abs() < 1e-9);
}

#[test]
fn opposing_keys_cancel_and_release_stops() {
    let mut camera = Camera::new(0, 0);
    let mut controller = CameraController::new(2, 1);
    controller.process_keyboard(Key::ArrowLeft, true);
    controller.process_keyboard(Key::KeyD, true);
    controller.process_keyboard(Key::Space, true);
    let motion = controller.update_camera(&mut camera, 500_000);
    assert_eq!(motion, Motion { forward: 0, right: 0, up: 1_000_000 });
    controller.process_keyboard(Key::Space, false);
    controller.process_keyboard(Key::ShiftLeft, true);
    controller.process_keyboard(Key::ArrowDown, true);
    let motion = controller.update_camera(&mut camera, 250_000);
    assert_eq!(motion, Motion { forward: -500_000, right: 0, up: -500_000 });
}

#[test]
fn unknown_key_is_not_handled() {
    let mut camera = Camera::new(0, 0);
    let mut controller = CameraController::new(4, 12);
    assert!(!controller.process_keyboard(Key::Other, true));
    assert!(!controller.process_keyboard(Key::Escape, true));
    let motion = controller.update_camera(&mut camera, MICROS_PER_SECOND);
    assert_eq!(motion, Motion { forward: 0, right: 0, up: 0 });
}

#[test]
fn pointer_motion_turns_by_sensitivity_degrees_per_pixel_second() {
    let mut camera = Camera::new(0, 0);
    let mut controller = CameraController::new(4, 12);
    controller.handle_mouse(1_000_000, -500_000);
    controller.handle_mouse(1_000_000, 0);
    assert_eq!(controller.pending_rotation(), (2_000_000, -500_000));
    controller.update_camera(&mut camera, MICROS_PER_SECOND / 2);
    // 2 px at 12 deg/(px s) for 0.5 s: 12 degrees right; -0.5 px: 3 degrees up.
    assert_eq!(camera.yaw, 12_000_000);
    assert_eq!(camera.pitch, 3_000_000);
}

#[test]
fn rotation_is_cleared_after_update() {
    let mut camera = Camera::new(0, 0);
    let mut controller = CameraController::new(4, 12);
    controller.handle_mouse(-3_000_000, 7_000_000);
    controller.update_camera(&mut camera, 16_667);
    assert_eq!(controller.pending_rotation(), (0, 0));
    let before = camera;
    controller.update_camera(&mut camera, 16_667);
    assert_eq!(camera, before);
}

#[test]
fn pitch_is_clamped_below_a_right_angle() {
    let mut camera = Camera::new(0, 0);
    let mut controller = CameraController::new(4, 12);
    controller.handle_mouse(0, -1_000_000_000);
    controller.update_camera(&mut camera, MICROS_PER_SECOND);
    assert_eq!(camera.pitch, SAFE_PITCH);
    controller.handle_mouse(0, i64::MAX);
    controller.handle_mouse(0, i64::MAX);
    assert_eq!(controller.pending_rotation(), (0, i64::MAX));
    controller.update_camera(&mut camera, u64::MAX);
    assert_eq!(camera.pitch, -SAFE_PITCH);
    for _ in 0..5 {
        controller.handle_mouse(0, -400_000_000);
        controller.update_camera(&mut camera, 100_000);
        assert!(camera.pitch >= -SAFE_PITCH && camera.pitch <= SAFE_PITCH);
    }
}

#[test]
fn huge_duration_saturates_motion() {
    let mut camera = Camera::new(0, 0);
    let mut controller = CameraController::new(u32::MAX, 12);
    controller.process_keyboard(Key::KeyS, true);
    let motion = controller.update_camera(&mut camera, u64::MAX);
    assert_eq!(motion.forward, -i64::MAX);
}

#[test]
fn escape_exits_and_l_toggles_cursor_lock() {
    let mut controller = CameraController::new(4, 12);
    assert!(!controller.cursor_locked());
    let r = controller.handle_key(Key::KeyL, true);
    assert!(r.cursor_changed && !r.exit && !r.handled);
    assert!(controller.cursor_locked());
    let r = controller.handle_key(Key::KeyL, false);
    assert!(!r.cursor_changed);
    assert!(controller.cursor_locked());
    controller.swap_cursor_locked();
    assert!(!controller.cursor_locked());
    let r = controller.handle_key(Key::Escape, true);
    assert!(r.exit && !r.cursor_changed && !r.handled);
    let r = controller.handle_key(Key::KeyA, true);
    assert!(r.handled && !r.exit);
}

#[test]
fn projection_resize_keeps_lens() {
    let mut p = Projection::new(800, 600, 45_000_000, 100_000, 100_000_000);
    p.resize(1920, 1080);
    assert_eq!(p, Projection::new(1920, 1080, 45_000_000, 100_000, 100_000_000));
}
