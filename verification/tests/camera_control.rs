use terrain_engine::camera::{
    Camera, CameraController, Heading, Key, Projection, ScrollDelta, PITCH_LIMIT, QUARTER_TURN,
};
use terrain_engine::fixed::Vector3;

fn eye() -> Camera {
    Camera::new(Vector3 { x: 0, y: 5_000_000, z: 10_000_000 }, -1_570_796, -349_066)
}

// Sines and cosines for a camera that looks along -z, twenty degrees down.
fn facing_the_scene() -> Heading {
    Heading { yaw_sin: -1_000_000, yaw_cos: 0, pitch_sin: -342_020, pitch_cos: 939_693 }
}

#[test]
fn a_new_controller_is_at_rest() {
    let c = CameraController::new(4_000_000, 400_000);
    assert!(!c.forward && !c.backward && !c.left && !c.right && !c.up && !c.down);
    assert_eq!(c.rotate_horizontal, 0);
    assert_eq!(c.rotate_vertical, 0);
    assert_eq!(c.scroll, 0);
    assert_eq!(c.speed, 4_000_000);
    assert_eq!(c.sensitivity, 400_000);
}

#[test]
fn direction_keys_are_recognised() {
    let mut c = CameraController::new(4_000_000, 400_000);
    assert!(c.process_keyboard(Key::W, true));
    assert!(c.forward);
    assert!(c.process_keyboard(Key::Up, false));
    assert!(!c.forward);
    assert!(c.process_keyboard(Key::S, true));
    assert!(c.backward);
    assert!(c.process_keyboard(Key::Down, false));
    assert!(!c.backward);
    assert!(c.process_keyboard(Key::A, true));
    assert!(c.left);
    assert!(c.process_keyboard(Key::Left, false));
    assert!(!c.left);
    assert!(c.process_keyboard(Key::D, true));
    assert!(c.right);
    assert!(c.process_keyboard(Key::Right, false));
    assert!(!c.right);
    assert!(c.process_keyboard(Key::Space, true));
    assert!(c.up);
    assert!(c.process_keyboard(Key::LShift, true));
    assert!(c.down);
}

#[test]
fn other_keys_are_not_recognised() {
    let mut c = CameraController::new(4_000_000, 400_000);
    let before = c;
    assert!(!c.process_keyboard(Key::Other, true));
    assert_eq!(c, before);
}

#[test]
fn scroll_counts_lines_as_a_hundred_pixels() {
    let mut c = CameraController::new(4_000_000, 400_000);
    c.process_scroll(&ScrollDelta::Lines(1_000_000));
    assert_eq!(c.scroll, -100_000_000);
    c.process_scroll(&ScrollDelta::Pixels(30_000_000));
    assert_eq!(c.scroll, -130_000_000);
    c.process_scroll(&ScrollDelta::Lines(-2_000_000));
    assert_eq!(c.scroll, 70_000_000);
}

#[test]
fn pointer_movement_adds_up() {
    let mut c = CameraController::new(4_000_000, 400_000);
    c.process_mouse(3_000_000, -2_000_000);
    c.process_mouse(1_500_000, 500_000);
    assert_eq!(c.rotate_horizontal, 4_500_000);
    assert_eq!(c.rotate_vertical, -1_500_000);
    c.process_mouse(i64::MAX, i64::MIN);
    assert_eq!(c.rotate_horizontal, i64::MAX);
    assert_eq!(c.rotate_vertical, i64::MIN);
}

#[test]
fn forward_moves_along_the_yaw() {
    let mut c = CameraController::new(4_000_000, 400_000);
    let mut camera = eye();
    c.process_keyboard(Key::W, true);
    // Half a second at four units a second: two units along -z.
    c.update_camera(&mut camera, &facing_the_scene(), 500_000);
    assert_eq!(camera.position, Vector3 { x: 0, y: 5_000_000, z: 8_000_000 });
    assert_eq!(camera.yaw, -1_570_796);
    assert_eq!(camera.pitch, -349_066);
    assert!(c.forward);
}

#[test]
fn backward_undoes_forward() {
    let mut c = CameraController::new(4_000_000, 400_000);
    let mut camera = eye();
    c.process_keyboard(Key::W, true);
    c.update_camera(&mut camera, &facing_the_scene(), 250_000);
    c.process_keyboard(Key::W, false);
    c.process_keyboard(Key::S, true);
    c.update_camera(&mut camera, &facing_the_scene(), 250_000);
    assert_eq!(camera, eye());
}

#[test]
fn right_and_left_move_across_the_yaw() {
    let mut c = CameraController::new(4_000_000, 400_000);
    let mut camera = eye();
    c.process_keyboard(Key::D, true);
    // Facing -z, the right hand points along +x.
    c.update_camera(&mut camera, &facing_the_scene(), 1_000_000);
    assert_eq!(camera.position, Vector3 { x: 4_000_000, y: 5_000_000, z: 10_000_000 });
    c.process_keyboard(Key::D, false);
    c.process_keyboard(Key::A, true);
    c.update_camera(&mut camera, &facing_the_scene(), 2_000_000);
    assert_eq!(camera.position, Vector3 { x: -4_000_000, y: 5_000_000, z: 10_000_000 });
}

#[test]
fn opposite_keys_cancel() {
    let mut c = CameraController::new(4_000_000, 400_000);
    let mut camera = eye();
    c.process_keyboard(Key::W, true);
    c.process_keyboard(Key::S, true);
    c.process_keyboard(Key::A, true);
    c.process_keyboard(Key::D, true);
    c.process_keyboard(Key::Space, true);
    c.process_keyboard(Key::LShift, true);
    c.update_camera(&mut camera, &facing_the_scene(), 1_000_000);
    assert_eq!(camera, eye());
}

#[test]
fn space_and_shift_move_straight_up_and_down() {
    let mut c = CameraController::new(4_000_000, 400_000);
    let mut camera = eye();
    c.process_keyboard(Key::Space, true);
    c.update_camera(&mut camera, &facing_the_scene(), 250_000);
    assert_eq!(camera.position, Vector3 { x: 0, y: 6_000_000, z: 10_000_000 });
    c.process_keyboard(Key::Space, false);
    c.process_keyboard(Key::LShift, true);
    c.update_camera(&mut camera, &facing_the_scene(), 500_000);
    assert_eq!(camera.position, Vector3 { x: 0, y: 4_000_000, z: 10_000_000 });
}

#[test]
fn scroll_moves_along_the_line_of_sight() {
    let mut c = CameraController::new(4_000_000, 400_000);
    let mut camera = eye();
    // One line towards the user: -100 pixels, times 0.4, times 4 units a
    // second, times a tenth of a second: -16 units along the line of sight.
    c.process_scroll(&ScrollDelta::Lines(1_000_000));
    c.update_camera(&mut camera, &facing_the_scene(), 100_000);
    // The line of sight is (0, -0.34202, -0.939693).
    assert_eq!(
        camera.position,
        Vector3 { x: 0, y: 5_000_000 + 5_472_320, z: 10_000_000 + 15_035_088 }
    );
    assert_eq!(c.scroll, 0);
}

#[test]
fn pointer_turns_yaw_and_pitch() {
    let mut c = CameraController::new(4_000_000, 400_000);
    let mut camera = eye();
    // Five pixels right and one down, at 0.4 for half a second: one radian
    // of yaw, a fifth of a radian down.
    c.process_mouse(5_000_000, 1_000_000);
    c.update_camera(&mut camera, &facing_the_scene(), 500_000);
    assert_eq!(camera.yaw, -1_570_796 + 1_000_000);
    assert_eq!(camera.pitch, -349_066 - 200_000);
    assert_eq!(camera.position, eye().position);
}

#[test]
fn pitch_is_clamped_short_of_straight_down() {
    let mut c = CameraController::new(4_000_000, 400_000);
    let mut camera = eye();
    c.process_mouse(0, 10_000_000);
    c.update_camera(&mut camera, &facing_the_scene(), 500_000);
    assert_eq!(camera.pitch, -1_570_696);
    assert_eq!(camera.pitch, -PITCH_LIMIT);
    assert!(-QUARTER_TURN < camera.pitch);
}

#[test]
fn pitch_is_clamped_short_of_straight_up() {
    let mut c = CameraController::new(4_000_000, 400_000);
    let mut camera = eye();
    c.process_mouse(0, i64::MIN);
    c.update_camera(&mut camera, &facing_the_scene(), u64::MAX);
    assert_eq!(camera.pitch, PITCH_LIMIT);
    assert!(camera.pitch < QUARTER_TURN);
}

#[test]
fn pitch_stays_within_limit_over_many_frames() {
    let mut c = CameraController::new(4_000_000, 400_000);
    let mut camera = Camera::new(Vector3 { x: 0, y: 0, z: 0 }, 0, 5_000_000);
    let moves: [(i64, i64, u64); 6] = [
        (0, -900_000_000, 16_000),
        (123_456, 77_000_000_000, 1_000_000),
        (-5, i64::MAX, 33_000),
        (i64::MIN, i64::MIN, u64::MAX),
        (1, 1, 0),
        (0, 0, 7),
    ];
    for (dx, dy, dt) in moves {
        c.process_mouse(dx, dy);
        c.update_camera(&mut camera, &facing_the_scene(), dt);
        assert!(-PITCH_LIMIT <= camera.pitch && camera.pitch <= PITCH_LIMIT);
        assert!(-QUARTER_TURN < camera.pitch && camera.pitch < QUARTER_TURN);
    }
}

#[test]
fn update_forgets_turn_and_scroll() {
    let mut c = CameraController::new(4_000_000, 400_000);
    let mut camera = eye();
    c.process_mouse(3_000_000, 4_000_000);
    c.process_scroll(&ScrollDelta::Pixels(12_000_000));
    c.process_keyboard(Key::W, true);
    c.update_camera(&mut camera, &facing_the_scene(), 16_000);
    assert_eq!(c.rotate_horizontal, 0);
    assert_eq!(c.rotate_vertical, 0);
    assert_eq!(c.scroll, 0);
    assert!(c.forward);
}

#[test]
fn a_second_update_without_time_moves_nothing() {
    let mut c = CameraController::new(4_000_000, 400_000);
    let mut camera = eye();
    c.process_mouse(3_000_000, 4_000_000);
    c.process_scroll(&ScrollDelta::Lines(2_000_000));
    c.process_keyboard(Key::D, true);
    c.update_camera(&mut camera, &facing_the_scene(), 0);
    let after_first = camera;
    c.update_camera(&mut camera, &facing_the_scene(), 0);
    assert_eq!(camera, after_first);
    assert_eq!(camera, eye());
}

#[test]
fn an_update_without_time_ignores_pending_input() {
    let mut c = CameraController::new(4_000_000, 400_000);
    let mut camera = eye();
    c.process_mouse(i64::MAX, i64::MAX);
    c.process_keyboard(Key::W, true);
    c.update_camera(&mut camera, &facing_the_scene(), 0);
    assert_eq!(camera, eye());
}

#[test]
fn an_overlong_frame_counts_as_the_longest() {
    let mut c = CameraController::new(1, 400_000);
    let mut camera = eye();
    c.process_keyboard(Key::Space, true);
    c.update_camera(&mut camera, &facing_the_scene(), u64::MAX);
    // A millionth of a unit a second for i64::MAX microseconds.
    assert_eq!(camera.position.y, 5_000_000 + 9_223_372_036_854);
}

#[test]
fn projection_keeps_what_it_is_given() {
    let p = Projection::new(800, 600, 785_398, 100_000, 100_000_000);
    assert_eq!(p.width, 800);
    assert_eq!(p.height, 600);
    assert_eq!(p.fovy, 785_398);
    assert_eq!(p.znear, 100_000);
    assert_eq!(p.zfar, 100_000_000);
}

#[test]
fn projection_resize_takes_the_new_aspect() {
    let mut p = Projection::new(800, 600, 785_398, 100_000, 100_000_000);
    p.resize(1920, 1080);
    assert_eq!((p.width, p.height), (1920, 1080));
    assert_eq!(p.fovy, 785_398);
    assert_eq!(p.znear, 100_000);
    assert_eq!(p.zfar, 100_000_000);
}

#[test]
fn projection_resize_to_no_height_changes_nothing() {
    let mut p = Projection::new(800, 600, 785_398, 100_000, 100_000_000);
    let before = p;
    p.resize(1024, 0);
    assert_eq!(p, before);
    p.resize(0, 0);
    assert_eq!(p, before);
}

#[test]
fn projection_resize_to_no_width_is_taken() {
    let mut p = Projection::new(800, 600, 785_398, 100_000, 100_000_000);
    p.resize(0, 300);
    assert_eq!((p.width, p.height), (0, 300));
}
