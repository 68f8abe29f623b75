//! Tests for the fixed-point math and the free-fly camera.

use flycam::camera::{Camera, ProjectionType, Vec3Fx};
use flycam::camera::{orthographic_matrix, perspective_matrix};
use flycam::fixed::{cos_fx, fx_mul_fx, sin_fx, tdiv_fx, wrap_angle_fx, FX_ONE, QUARTER_TURN};
use flycam::input::{ButtonAction, InputState, KEY_LEFT_SHIFT, KEY_RIGHT_SHIFT, KEY_S, KEY_W};

#[test]
fn sine_and_cosine_are_exact_at_quarter_turns() {
    assert_eq!(sin_fx(0), 0);
    assert_eq!(sin_fx(QUARTER_TURN), FX_ONE);
    assert_eq!(sin_fx(180000), 0);
    assert_eq!(sin_fx(270000), -FX_ONE);
    assert_eq!(sin_fx(-QUARTER_TURN), -FX_ONE);
    assert_eq!(cos_fx(0), FX_ONE);
    assert_eq!(cos_fx(QUARTER_TURN), 0);
    assert_eq!(cos_fx(-QUARTER_TURN), 0);
}

#[test]
fn sine_is_close_to_the_real_function_between_quarter_turns() {
    for deg in 0..=180i64 {
        let approx = sin_fx(deg * 1000) as f64 / 1000.0;
        let exact = (deg as f64).to_radians().sin();
        assert!((approx - exact).abs() < 0.003, "sin({deg}) = {approx} vs {exact}");
    }
}

#[test]
fn angle_folding_keeps_a_principal_turn() {
    assert_eq!(wrap_angle_fx(190000), -170000);
    assert_eq!(wrap_angle_fx(-190000), 170000);
    assert_eq!(wrap_angle_fx(-90000), -90000);
    assert_eq!(wrap_angle_fx(360000), 0);
}

#[test]
fn truncating_division_rounds_toward_zero() {
    assert_eq!(tdiv_fx(7, 2), 3);
    assert_eq!(tdiv_fx(-7, 2), -3);
    assert_eq!(fx_mul_fx(1500, 2000), 3000);
    assert_eq!(fx_mul_fx(-1500, 2000), -3000);
}

#[test]
fn new_camera_faces_the_reference_forward_direction() {
    let cam = Camera::new();
    assert_eq!(cam.yaw, -90000);
    assert_eq!(cam.pitch, 0);
    assert_eq!(cam.front, Vec3Fx { x: 0, y: 0, z: -FX_ONE });
    assert_eq!(cam.right, Vec3Fx { x: FX_ONE, y: 0, z: 0 });
    assert_eq!(cam.up, Vec3Fx { x: 0, y: FX_ONE, z: 0 });
}

#[test]
fn new_camera_view_matrix_is_the_look_at_matrix() {
    let cam = Camera::new();
    let expected: [i64; 16] = [
        1000, 0, 0, 0,
        0, 1000, 0, 0,
        0, 0, 1000, 0,
        0, 0, -3000, 1000,
    ];
    assert_eq!(cam.view, expected);
}

#[test]
fn perspective_matrix_has_the_expected_entries() {
    let expected: [i64; 16] = [
        1425, 0, 0, 0,
        0, 1425, 0, 0,
        0, 0, -1000, -1000,
        0, 0, -200, 0,
    ];
    assert_eq!(perspective_matrix(1000), expected);
    let cam = Camera::new();
    assert_eq!(cam.proj, expected);
}

#[test]
fn orthographic_matrix_has_the_expected_entries() {
    let expected: [i64; 16] = [
        1000, 0, 0, 0,
        0, 1000, 0, 0,
        0, 0, -5, 0,
        0, 0, 500, 1000,
    ];
    assert_eq!(orthographic_matrix(), expected);
}

#[test]
fn switching_back_to_perspective_restores_the_matrix_bit_for_bit() {
    let mut cam = Camera::new();
    let before = cam.proj;
    cam.set_projection(ProjectionType::Orthographic);
    assert_eq!(cam.projection, ProjectionType::Orthographic);
    assert_eq!(cam.proj, orthographic_matrix());
    cam.set_projection(ProjectionType::Perspective);
    assert_eq!(cam.projection, ProjectionType::Perspective);
    assert_eq!(cam.proj, perspective_matrix(1000));
    assert_eq!(cam.proj, before);
}

#[test]
fn held_forward_key_moves_half_a_front_vector_in_half_a_second() {
    let mut inp = InputState::new();
    inp.on_key_event(KEY_W, ButtonAction::Press);
    inp.begin_tick();
    let mut cam = Camera::new();
    assert_eq!(cam.speed, 1000);
    cam.input(&inp, 500, 800, 800);
    assert_eq!(cam.dt, 500);
    // position moved by 0.5 * front = (0, 0, -500)
    assert_eq!(cam.pos, Vec3Fx { x: 0, y: 0, z: 2500 });
}

#[test]
fn opposite_keys_cancel_and_the_view_follows_the_position() {
    let mut inp = InputState::new();
    inp.on_key_event(KEY_W, ButtonAction::Press);
    inp.on_key_event(KEY_S, ButtonAction::Press);
    inp.begin_tick();
    let mut cam = Camera::new();
    let view_before = cam.view;
    cam.input(&inp, 500, 800, 800);
    assert_eq!(cam.pos, Vec3Fx { x: 0, y: 0, z: 3000 });
    assert_eq!(cam.view, view_before);
}

#[test]
fn either_shift_key_multiplies_the_speed_by_twenty() {
    let mut inp = InputState::new();
    inp.on_key_event(KEY_W, ButtonAction::Press);
    inp.on_key_event(KEY_LEFT_SHIFT, ButtonAction::Press);
    inp.begin_tick();
    let mut cam = Camera::new();
    cam.input(&inp, 500, 800, 800);
    assert_eq!(cam.pos, Vec3Fx { x: 0, y: 0, z: 3000 - 10000 });

    // holding both shift keys applies the same single factor of twenty
    let mut inp2 = InputState::new();
    inp2.on_key_event(KEY_W, ButtonAction::Press);
    inp2.on_key_event(KEY_LEFT_SHIFT, ButtonAction::Press);
    inp2.on_key_event(KEY_RIGHT_SHIFT, ButtonAction::Press);
    inp2.begin_tick();
    let mut cam2 = Camera::new();
    cam2.input(&inp2, 500, 800, 800);
    assert_eq!(cam2.pos, Vec3Fx { x: 0, y: 0, z: 3000 - 10000 });

    // the right shift key alone works too
    let mut inp3 = InputState::new();
    inp3.on_key_event(KEY_W, ButtonAction::Press);
    inp3.on_key_event(KEY_RIGHT_SHIFT, ButtonAction::Press);
    inp3.begin_tick();
    let mut cam3 = Camera::new();
    cam3.input(&inp3, 500, 800, 800);
    assert_eq!(cam3.pos, Vec3Fx { x: 0, y: 0, z: 3000 - 10000 });
}

#[test]
fn zero_height_framebuffer_leaves_the_projection_untouched() {
    let inp = InputState::new();
    let mut cam = Camera::new();
    cam.set_projection(ProjectionType::Orthographic);
    cam.input(&inp, 100, 800, 0);
    assert_eq!(cam.projection, ProjectionType::Orthographic);
    assert_eq!(cam.proj, orthographic_matrix());
    cam.input(&inp, 200, 1600, 800);
    assert_eq!(cam.projection, ProjectionType::Perspective);
    assert_eq!(cam.proj, perspective_matrix(2000));
}

#[test]
fn uncaptured_mouse_never_changes_yaw_or_pitch() {
    let mut cam = Camera::new();
    cam.mouse_callback(500000, 500000, false);
    cam.mouse_callback(-900000, 123000, false);
    assert_eq!(cam.yaw, -90000);
    assert_eq!(cam.pitch, 0);
}

#[test]
fn first_captured_sample_after_recapture_produces_no_delta() {
    let mut cam = Camera::new();
    // a captured session establishes a tracking position
    cam.mouse_callback(100000, 50000, true);
    cam.mouse_callback(101000, 50000, true);
    assert_eq!(cam.yaw, -89900);
    // leaving capture arms the first-mouse flag again
    cam.mouse_callback(400000, 400000, false);
    // the next captured sample is far away yet produces no spurious delta
    cam.mouse_callback(999000, 999000, true);
    assert_eq!(cam.yaw, -89900);
    assert_eq!(cam.pitch, 0);
}

#[test]
fn mouse_delta_turns_at_a_tenth_of_a_degree_per_pixel() {
    let mut cam = Camera::new();
    cam.mouse_callback(100000, 50000, true);
    // ten pixels right: yaw grows by one degree
    cam.mouse_callback(110000, 50000, true);
    assert_eq!(cam.yaw, -89000);
    // ten pixels up (window y grows downward): pitch grows by one degree
    cam.mouse_callback(110000, 40000, true);
    assert_eq!(cam.pitch, 1000);
}

#[test]
fn a_quarter_turn_of_yaw_faces_positive_x() {
    let mut cam = Camera::new();
    cam.mouse_callback(0, 0, true);
    // nine hundred pixels right: yaw from -90 to 0 degrees
    cam.mouse_callback(900000, 0, true);
    assert_eq!(cam.yaw, 0);
    assert_eq!(cam.front, Vec3Fx { x: FX_ONE, y: 0, z: 0 });
}

#[test]
fn update_sets_the_position_and_recomputes_the_view() {
    let mut cam = Camera::new();
    cam.update(Vec3Fx { x: 1000, y: 2000, z: 3000 });
    assert_eq!(cam.pos, Vec3Fx { x: 1000, y: 2000, z: 3000 });
    assert_eq!(cam.view[12], -1000);
    assert_eq!(cam.view[13], -2000);
    assert_eq!(cam.view[14], -3000);
    assert_eq!(cam.view[15], 1000);
}

#[test]
fn send_uniforms_hands_out_both_matrices() {
    let cam = Camera::new();
    let (view, proj) = cam.send_uniforms();
    assert_eq!(view, cam.view);
    assert_eq!(proj, cam.proj);
}
