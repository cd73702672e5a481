use blackhole::camera::{
    gravity_message, OrbitCamera, Point, Spherical, DEFAULT_MAX_RADIUS, DEFAULT_MIN_RADIUS,
    DEFAULT_ORBIT_SPEED, DEFAULT_PAN_SPEED, DEFAULT_RADIUS, DEFAULT_ZOOM_SPEED, HALF_PI,
    MAX_ELEVATION, MIN_ELEVATION, PI, POLE_MARGIN, TAU,
};
use blackhole::input::{Action, Key, MouseButton};

fn cartesian(eye: Spherical) -> (f64, f64, f64) {
    let radius = eye.radius as f64;
    let azimuth = eye.azimuth as f64 * 1e-9;
    let elevation = eye.elevation as f64 * 1e-9;
    (
        radius * elevation.sin() * azimuth.cos(),
        radius * elevation.cos(),
        radius * elevation.sin() * azimuth.sin(),
    )
}

fn dragging_camera() -> OrbitCamera {
    let mut camera = OrbitCamera::new();
    let mut gravity = false;
    camera.on_button(MouseButton::Left, Action::Press, 0, 0, &mut gravity);
    camera
}

#[test]
fn angles_are_nanoradians() {
    assert_eq!(HALF_PI, 1_570_796_327);
    assert_eq!(PI, 3_141_592_654);
    assert_eq!(TAU, 6_283_185_308);
    assert_eq!(POLE_MARGIN, 10_000_000);
    assert_eq!(MIN_ELEVATION, 10_000_001);
    assert_eq!(MAX_ELEVATION, 3_131_592_653);
    assert!((PI as f64 * 1e-9 - std::f64::consts::PI).abs() < 1e-9);
}

#[test]
fn new_camera_has_the_defaults() {
    let camera = OrbitCamera::new();
    assert_eq!(camera.focus(), Point { x: 0, y: 0, z: 0 });
    assert_eq!(camera.radius(), 63_419_400_000);
    assert_eq!(camera.radius(), DEFAULT_RADIUS);
    assert_eq!(camera.radius_limits(), (10_000_000_000, 1_000_000_000_000));
    assert_eq!(camera.radius_limits(), (DEFAULT_MIN_RADIUS, DEFAULT_MAX_RADIUS));
    assert_eq!(camera.azimuth(), 0);
    assert_eq!(camera.elevation(), HALF_PI);
    assert_eq!(camera.speeds(), (10_000_000, 10_000_000, 25_000_000_000));
    assert_eq!(camera.speeds(), (DEFAULT_ORBIT_SPEED, DEFAULT_PAN_SPEED, DEFAULT_ZOOM_SPEED));
    assert!(!camera.is_dragging());
    assert!(!camera.is_panning());
    assert!(!camera.is_moving());
    assert_eq!(camera.last_pointer(), (0, 0));
}

#[test]
fn default_camera_sits_on_the_first_axis() {
    let camera = OrbitCamera::new();
    let eye = camera.position();
    assert_eq!(eye, Spherical { radius: 63_419_400_000, azimuth: 0, elevation: HALF_PI });
    let (x, y, z) = cartesian(eye);
    let expected = 6.34194e10;
    assert!((x - expected).abs() <= 1e-3 * expected);
    assert!(y.abs() <= 1e-3 * expected);
    assert!(z.abs() <= 1e-3 * expected);
}

#[test]
fn left_drag_turns_the_camera_by_one_radian() {
    let mut camera = OrbitCamera::new();
    let mut gravity = false;
    camera.on_button(MouseButton::Left, Action::Press, 0, 0, &mut gravity);
    assert!(camera.is_dragging());
    camera.on_pointer_move(100, 0);
    assert_eq!(camera.azimuth(), 1_000_000_000);
    assert_eq!(camera.elevation(), HALF_PI);
    assert!(camera.is_moving());
    assert_eq!(camera.last_pointer(), (100, 0));
    let (x, y, z) = cartesian(camera.position());
    let radius = 6.34194e10;
    assert!((x - radius * 1.0f64.cos()).abs() <= 1e-6 * radius);
    assert!(y.abs() <= 1e-6 * radius);
    assert!((z - radius * 1.0f64.sin()).abs() <= 1e-6 * radius);
    assert!(!gravity);
}

#[test]
fn scroll_back_by_one_moves_out_by_the_zoom_speed() {
    let mut camera = OrbitCamera::new();
    camera.on_scroll(-1);
    assert_eq!(camera.radius(), 63_419_400_000 + 25_000_000_000);
    assert_eq!(camera.radius(), 88_419_400_000);
    assert!(!camera.is_moving());
}

#[test]
fn scroll_forward_moves_in() {
    let mut camera = OrbitCamera::new();
    camera.on_scroll(2);
    assert_eq!(camera.radius(), 13_419_400_000);
}

#[test]
fn radius_stops_at_its_limits() {
    let mut camera = OrbitCamera::new();
    for _ in 0..37 {
        camera.on_scroll(-1);
    }
    assert_eq!(camera.radius(), 988_419_400_000);
    camera.on_scroll(-1);
    assert_eq!(camera.radius(), 1_000_000_000_000);
    camera.on_scroll(-1);
    assert_eq!(camera.radius(), 1_000_000_000_000);
    camera.on_scroll(40);
    assert_eq!(camera.radius(), 10_000_000_000);
    camera.on_scroll(i64::MAX);
    assert_eq!(camera.radius(), 10_000_000_000);
    camera.on_scroll(i64::MIN);
    assert_eq!(camera.radius(), 1_000_000_000_000);
}

#[test]
fn vertical_drag_lowers_the_elevation() {
    let mut camera = dragging_camera();
    camera.on_pointer_move(0, 10);
    assert_eq!(camera.elevation(), HALF_PI - 100_000_000);
    assert_eq!(camera.azimuth(), 0);
    camera.on_pointer_move(0, -5);
    assert_eq!(camera.elevation(), HALF_PI + 50_000_000);
}

#[test]
fn elevation_stops_short_of_both_poles() {
    let mut camera = dragging_camera();
    camera.on_pointer_move(0, 1_000);
    assert_eq!(camera.elevation(), MIN_ELEVATION);
    camera.on_pointer_move(0, 1_001);
    assert_eq!(camera.elevation(), MIN_ELEVATION);
    camera.on_pointer_move(0, -1_000);
    assert_eq!(camera.elevation(), MAX_ELEVATION);
    camera.on_pointer_move(0, i64::MIN);
    assert_eq!(camera.elevation(), MAX_ELEVATION);
    camera.on_pointer_move(0, i64::MAX);
    assert_eq!(camera.elevation(), MIN_ELEVATION);
}

#[test]
fn position_uses_the_elevation_between_the_poles() {
    let mut camera = dragging_camera();
    camera.on_pointer_move(0, 1_000_000);
    let eye = camera.position();
    assert_eq!(eye.elevation, MIN_ELEVATION);
    assert_eq!(eye.elevation, camera.elevation());
    let (_, y, _) = cartesian(eye);
    assert!(y > 0.0);
    assert!(y < camera.radius() as f64);
}

#[test]
fn azimuth_wraps_around() {
    let mut camera = dragging_camera();
    camera.on_pointer_move(-1, 0);
    assert_eq!(camera.azimuth(), TAU - 10_000_000);
    camera.on_pointer_move(1, 0);
    assert_eq!(camera.azimuth(), 10_000_000);
    camera.on_pointer_move(629, 0);
    assert_eq!(camera.azimuth(), 6_290_000_000 - TAU);
}

#[test]
fn whole_turns_return_to_the_same_eye() {
    let mut camera = dragging_camera();
    camera.on_pointer_move(37, 12);
    let before = camera.position();
    // 1 570 796 327 pointer units at 10 000 000 nanoradians each are exactly
    // 2 500 000 turns.
    camera.on_pointer_move(37 + 1_570_796_327, 12);
    assert_eq!(camera.position(), before);
    camera.on_pointer_move(37 - 1_570_796_327, 12);
    assert_eq!(camera.position(), before);
    let (x0, y0, z0) = cartesian(before);
    let (x1, y1, z1) = cartesian(camera.position());
    assert!((x0 - x1).abs() + (y0 - y1).abs() + (z0 - z1).abs() < 1e-3);
}

#[test]
fn small_moves_make_small_changes() {
    let mut near = dragging_camera();
    let mut far = dragging_camera();
    near.on_pointer_move(50, 155);
    far.on_pointer_move(51, 158);
    assert!((far.azimuth() - near.azimuth()).abs() <= 10_000_000);
    assert!((far.elevation() - near.elevation()).abs() <= 3 * 10_000_000);
    let (x0, y0, z0) = cartesian(near.position());
    let (x1, y1, z1) = cartesian(far.position());
    let moved = ((x1 - x0).powi(2) + (y1 - y0).powi(2) + (z1 - z0).powi(2)).sqrt();
    assert!(moved <= 0.04 * near.radius() as f64);
}

#[test]
fn pointer_move_without_drag_only_tracks_the_pointer() {
    let mut camera = OrbitCamera::new();
    camera.on_pointer_move(300, -200);
    assert_eq!(camera.azimuth(), 0);
    assert_eq!(camera.elevation(), HALF_PI);
    assert_eq!(camera.radius(), DEFAULT_RADIUS);
    assert_eq!(camera.last_pointer(), (300, -200));
    assert!(!camera.is_moving());
}

#[test]
fn drag_starts_from_the_cursor() {
    let mut camera = OrbitCamera::new();
    let mut gravity = false;
    camera.on_pointer_move(500, 500);
    camera.on_button(MouseButton::Left, Action::Press, 20, 30, &mut gravity);
    assert_eq!(camera.last_pointer(), (20, 30));
    camera.on_pointer_move(21, 30);
    assert_eq!(camera.azimuth(), 10_000_000);
    assert_eq!(camera.elevation(), HALF_PI);
}

#[test]
fn middle_button_drags_too() {
    let mut camera = OrbitCamera::new();
    let mut gravity = false;
    camera.on_button(MouseButton::Middle, Action::Press, 0, 0, &mut gravity);
    assert!(camera.is_dragging());
    assert!(!camera.is_panning());
    camera.on_pointer_move(3, 0);
    assert_eq!(camera.azimuth(), 30_000_000);
    camera.on_button(MouseButton::Middle, Action::Release, 3, 0, &mut gravity);
    assert!(!camera.is_dragging());
    camera.on_pointer_move(9, 0);
    assert_eq!(camera.azimuth(), 30_000_000);
    assert!(!camera.is_moving());
}

#[test]
fn release_without_press_changes_nothing() {
    let mut camera = OrbitCamera::new();
    let mut gravity = false;
    camera.on_button(MouseButton::Left, Action::Release, 10, 10, &mut gravity);
    assert!(!camera.is_dragging());
    assert!(!camera.is_panning());
    assert_eq!(camera.last_pointer(), (0, 0));
    camera.on_button(MouseButton::Middle, Action::Release, 10, 10, &mut gravity);
    camera.on_button(MouseButton::Left, Action::Release, 10, 10, &mut gravity);
    assert!(!camera.is_dragging());
    assert!(!camera.is_panning());
    assert!(!gravity);
    camera.on_pointer_move(50, 50);
    assert_eq!(camera.azimuth(), 0);
    assert_eq!(camera.elevation(), HALF_PI);
}

#[test]
fn update_follows_the_drag() {
    let mut camera = OrbitCamera::new();
    let mut gravity = false;
    camera.on_button(MouseButton::Left, Action::Press, 0, 0, &mut gravity);
    assert!(!camera.is_moving());
    camera.update();
    assert!(camera.is_moving());
    camera.on_button(MouseButton::Left, Action::Release, 0, 0, &mut gravity);
    assert!(camera.is_moving());
    camera.update();
    assert!(!camera.is_moving());
    assert_eq!(camera.focus(), Point { x: 0, y: 0, z: 0 });
}

#[test]
fn focus_stays_at_the_origin() {
    let mut camera = OrbitCamera::new();
    let mut gravity = false;
    let buttons = [MouseButton::Left, MouseButton::Middle, MouseButton::Right, MouseButton::Other];
    let actions = [Action::Press, Action::Release, Action::Repeat];
    let mut step: i64 = 1;
    for button in buttons {
        for action in actions {
            camera.on_button(button, action, step, -step, &mut gravity);
            camera.on_pointer_move(step * 17, step * -29);
            camera.on_scroll(step % 3 - 1);
            assert_eq!(camera.focus(), Point { x: 0, y: 0, z: 0 });
            assert!(!camera.is_panning());
            assert!(camera.elevation() > POLE_MARGIN && camera.elevation() < PI - POLE_MARGIN);
            assert!(camera.radius() >= DEFAULT_MIN_RADIUS && camera.radius() <= DEFAULT_MAX_RADIUS);
            assert!(camera.azimuth() >= 0 && camera.azimuth() < TAU);
            step += 1;
        }
    }
}

#[test]
fn right_button_holds_gravity_on() {
    let mut camera = OrbitCamera::new();
    let mut gravity = false;
    camera.on_button(MouseButton::Right, Action::Press, 5, 5, &mut gravity);
    assert!(gravity);
    assert!(!camera.is_dragging());
    assert_eq!(camera.last_pointer(), (0, 0));
    camera.on_button(MouseButton::Right, Action::Repeat, 5, 5, &mut gravity);
    assert!(gravity);
    camera.on_button(MouseButton::Right, Action::Release, 5, 5, &mut gravity);
    assert!(!gravity);
    camera.on_button(MouseButton::Other, Action::Press, 5, 5, &mut gravity);
    assert!(!gravity);
    assert!(!camera.is_dragging());
}

#[test]
fn key_g_flips_gravity() {
    let mut gravity = false;
    assert_eq!(OrbitCamera::on_key(Key::G, Action::Press, &mut gravity), Some(true));
    assert!(gravity);
    assert_eq!(OrbitCamera::on_key(Key::G, Action::Release, &mut gravity), None);
    assert!(gravity);
    assert_eq!(OrbitCamera::on_key(Key::G, Action::Repeat, &mut gravity), None);
    assert!(gravity);
    assert_eq!(OrbitCamera::on_key(Key::G, Action::Press, &mut gravity), Some(false));
    assert!(!gravity);
    assert_eq!(OrbitCamera::on_key(Key::Escape, Action::Press, &mut gravity), None);
    assert_eq!(OrbitCamera::on_key(Key::Other, Action::Press, &mut gravity), None);
    assert!(!gravity);
}

#[test]
fn gravity_message_names_the_setting() {
    assert_eq!(gravity_message(true), "[INFO] Gravity turned ON");
    assert_eq!(gravity_message(false), "[INFO] Gravity turned OFF");
}

#[test]
fn extreme_pointer_positions_are_taken_in() {
    let mut camera = OrbitCamera::new();
    let mut gravity = false;
    camera.on_button(MouseButton::Left, Action::Press, i64::MIN, i64::MAX, &mut gravity);
    camera.on_pointer_move(i64::MAX, i64::MIN);
    assert!(camera.azimuth() >= 0 && camera.azimuth() < TAU);
    assert_eq!(camera.elevation(), MAX_ELEVATION);
    let expected = ((i64::MAX as i128 - i64::MIN as i128) * 10_000_000).rem_euclid(TAU as i128);
    assert_eq!(camera.azimuth() as i128, expected);
    camera.on_pointer_move(i64::MIN, i64::MAX);
    assert_eq!(camera.azimuth(), 0);
    assert_eq!(camera.elevation(), MIN_ELEVATION);
}
