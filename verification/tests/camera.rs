use scene_core::camera::{
    Camera, CameraController, Key, Motion, Projection, FULL_TURN, HALF_TURN, PITCH_LIMIT,
};
use scene_core::units::{Vec3, DEGREE};

fn eye() -> Vec3 {
    Vec3 { x: 0, y: 5000, z: 10_000 }
}

#[test]
fn camera_keeps_angles_that_are_in_range() {
    let camera = Camera::new(eye(), -90 * DEGREE, -20 * DEGREE);
    assert_eq!(camera.eye, eye());
    assert_eq!(camera.yaw, -90_000_000_000);
    assert_eq!(camera.pitch, -20_000_000_000);
}

#[test]
fn camera_wraps_yaw_into_half_a_turn() {
    assert_eq!(Camera::new(eye(), 270 * DEGREE, 0).yaw, -90 * DEGREE);
    assert_eq!(Camera::new(eye(), HALF_TURN, 0).yaw, -HALF_TURN);
    assert_eq!(Camera::new(eye(), HALF_TURN - 1, 0).yaw, HALF_TURN - 1);
    assert_eq!(Camera::new(eye(), -HALF_TURN, 0).yaw, -HALF_TURN);
    assert_eq!(Camera::new(eye(), -HALF_TURN - 1, 0).yaw, HALF_TURN - 1);
    assert_eq!(Camera::new(eye(), 3 * FULL_TURN + 5, 0).yaw, 5);
    assert_eq!(Camera::new(eye(), i64::MAX, 0).yaw, -43_145_224_193);
    assert_eq!(Camera::new(eye(), i64::MIN, 0).yaw, 43_145_224_192);
}

#[test]
fn camera_clamps_pitch() {
    assert_eq!(Camera::new(eye(), 0, 95 * DEGREE).pitch, PITCH_LIMIT);
    assert_eq!(Camera::new(eye(), 0, -95 * DEGREE).pitch, -PITCH_LIMIT);
    assert_eq!(Camera::new(eye(), 0, PITCH_LIMIT).pitch, 89_000_000_000);
    assert_eq!(Camera::new(eye(), 0, i64::MIN).pitch, -89_000_000_000);
    assert_eq!(Camera::new(eye(), 0, i64::MAX).pitch, 89_000_000_000);
}

#[test]
fn projection_needs_a_size() {
    assert_eq!(Projection::new(0, 600, 45 * DEGREE as u64, 100, 100_000), None);
    assert_eq!(Projection::new(800, 0, 45 * DEGREE as u64, 100, 100_000), None);
    assert_eq!(Projection::new(0, 0, 45 * DEGREE as u64, 100, 100_000), None);
    assert_eq!(
        Projection::new(1600, 900, 45 * DEGREE as u64, 100, 100_000),
        Some(Projection { width: 1600, height: 900, fovy: 45_000_000_000, znear: 100, zfar: 100_000 })
    );
}

#[test]
fn projection_resize_takes_the_new_size() {
    let mut projection = Projection::new(800, 600, 45 * DEGREE as u64, 100, 100_000).unwrap();
    projection.resize(1920, 1080);
    assert_eq!(
        projection,
        Projection { width: 1920, height: 1080, fovy: 45_000_000_000, znear: 100, zfar: 100_000 }
    );
}

#[test]
fn projection_resize_ignores_a_zero_side() {
    let before = Projection::new(800, 600, 45 * DEGREE as u64, 100, 100_000).unwrap();
    let mut projection = before;
    projection.resize(0, 1080);
    assert_eq!(projection, before);
    projection.resize(1920, 0);
    assert_eq!(projection, before);
    projection.resize(0, 0);
    assert_eq!(projection, before);
}

#[test]
fn controller_starts_at_rest() {
    let controller = CameraController::new(4000, 22_918);
    assert_eq!(
        controller,
        CameraController {
            speed: 4000,
            sensitivity: 22_918,
            forward: false,
            backward: false,
            left: false,
            right: false,
            up: false,
            down: false,
            rotate_horizontal: 0,
            rotate_vertical: 0,
            scroll: 0,
        }
    );
}

#[test]
fn motion_keys_are_handled() {
    let mut controller = CameraController::new(4000, 22_918);
    for key in [Key::W, Key::Up] {
        assert!(controller.process_keyboard(key, true));
        assert!(controller.forward);
        assert!(controller.process_keyboard(key, false));
        assert!(!controller.forward);
    }
    for key in [Key::S, Key::Down] {
        assert!(controller.process_keyboard(key, true));
        assert!(controller.backward);
        assert!(controller.process_keyboard(key, false));
        assert!(!controller.backward);
    }
    for key in [Key::A, Key::Left] {
        assert!(controller.process_keyboard(key, true));
        assert!(controller.left);
        assert!(controller.process_keyboard(key, false));
        assert!(!controller.left);
    }
    for key in [Key::D, Key::Right] {
        assert!(controller.process_keyboard(key, true));
        assert!(controller.right);
        assert!(controller.process_keyboard(key, false));
        assert!(!controller.right);
    }
    assert!(controller.process_keyboard(Key::Space, true));
    assert!(controller.up);
    assert!(controller.process_keyboard(Key::LShift, true));
    assert!(controller.down);
    assert!(controller.process_keyboard(Key::Space, false));
    assert!(!controller.up);
    assert!(controller.down);
}

#[test]
fn other_keys_are_not_handled() {
    let before = CameraController::new(4000, 22_918);
    let mut controller = before;
    assert!(!controller.process_keyboard(Key::Escape, true));
    assert!(!controller.process_keyboard(Key::Other, true));
    assert!(!controller.process_keyboard(Key::Other, false));
    assert_eq!(controller, before);
}

#[test]
fn pointer_travel_accumulates() {
    let mut controller = CameraController::new(4000, 22_918);
    controller.process_mouse(3, -4);
    controller.process_mouse(10, 1);
    assert_eq!(controller.rotate_horizontal, 13);
    assert_eq!(controller.rotate_vertical, -3);
    assert_eq!(controller.scroll, 0);
}

#[test]
fn pointer_travel_saturates() {
    let mut controller = CameraController::new(4000, 22_918);
    controller.process_mouse(i32::MAX, i32::MIN);
    controller.process_mouse(1, -1);
    assert_eq!(controller.rotate_horizontal, i32::MAX);
    assert_eq!(controller.rotate_vertical, i32::MIN);
}

#[test]
fn scroll_accumulates_and_saturates() {
    let mut controller = CameraController::new(4000, 22_918);
    controller.process_scroll(100);
    controller.process_scroll(-30);
    assert_eq!(controller.scroll, 70);
    controller.process_scroll(i32::MAX);
    assert_eq!(controller.scroll, i32::MAX);
    assert_eq!(controller.rotate_horizontal, 0);
}

#[test]
fn update_turns_the_camera() {
    let mut controller = CameraController::new(4000, 22_918);
    let mut camera = Camera::new(eye(), -90 * DEGREE, -20 * DEGREE);
    controller.process_mouse(10, 5);
    let motion = controller.update_camera(&mut camera, 16_667);
    // 10 steps * 22918 * 16667 = 3819743060; 5 steps give half of that.
    assert_eq!(camera.yaw, -90_000_000_000 + 3_819_743_060);
    assert_eq!(camera.pitch, -20_000_000_000 - 1_909_871_530);
    assert_eq!(camera.eye, eye());
    assert_eq!(motion, Motion { forward: 0, right: 0, up: 0, zoom: 0 });
}

#[test]
fn update_clamps_pitch_and_wraps_yaw() {
    let mut controller = CameraController::new(4000, 22_918);
    let mut camera = Camera::new(eye(), 179 * DEGREE, 88 * DEGREE);
    controller.process_mouse(1000, -1000);
    controller.update_camera(&mut camera, 1_000_000);
    // 1000 steps for a second turn the camera by 22918 degrees: 63 turns and 238 degrees.
    assert_eq!(camera.yaw, (179 + 238 - 360) * DEGREE);
    assert_eq!(camera.pitch, PITCH_LIMIT);
    controller.process_mouse(0, i32::MAX);
    controller.update_camera(&mut camera, u32::MAX);
    assert_eq!(camera.pitch, -PITCH_LIMIT);
}

#[test]
fn update_reports_travel_and_spends_what_was_gathered() {
    let mut controller = CameraController::new(4000, 22_918);
    let mut camera = Camera::new(eye(), 0, 0);
    controller.process_keyboard(Key::W, true);
    controller.process_keyboard(Key::A, true);
    controller.process_keyboard(Key::LShift, true);
    controller.process_scroll(-3);
    controller.process_mouse(2, 2);
    let motion = controller.update_camera(&mut camera, 1_000_000);
    assert_eq!(
        motion,
        Motion {
            forward: 4_000_000_000,
            right: -4_000_000_000,
            up: -4_000_000_000,
            zoom: -12_000_000_000,
        }
    );
    assert_eq!(controller.scroll, 0);
    assert_eq!(controller.rotate_horizontal, 0);
    assert_eq!(controller.rotate_vertical, 0);
    assert!(controller.forward && controller.left && controller.down);

    let again = controller.update_camera(&mut camera, 500_000);
    assert_eq!(
        again,
        Motion { forward: 2_000_000_000, right: -2_000_000_000, up: -2_000_000_000, zoom: 0 }
    );
}

#[test]
fn opposite_keys_cancel() {
    let mut controller = CameraController::new(4000, 22_918);
    let mut camera = Camera::new(eye(), 0, 0);
    controller.process_keyboard(Key::W, true);
    controller.process_keyboard(Key::S, true);
    let motion = controller.update_camera(&mut camera, 1_000_000);
    assert_eq!(motion.forward, 0);
    controller.process_keyboard(Key::W, false);
    let motion = controller.update_camera(&mut camera, 1_000_000);
    assert_eq!(motion.forward, -4_000_000_000);
}

#[test]
fn update_with_the_largest_inputs_stays_exact() {
    let mut controller = CameraController::new(u32::MAX, u32::MAX);
    let mut camera = Camera::new(eye(), 0, 0);
    controller.process_scroll(i32::MIN);
    controller.process_keyboard(Key::D, true);
    let motion = controller.update_camera(&mut camera, u32::MAX);
    let rate = u32::MAX as i128;
    assert_eq!(motion.right, rate * rate);
    assert_eq!(motion.zoom, i32::MIN as i128 * rate * rate);
    assert_eq!(camera.yaw, 0);
}
