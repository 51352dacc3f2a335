use dodge::camera::CameraModel;
use dodge::geometry::Vec2i;
use dodge::scene::{
    create_app, get_enemy_position, respond_to_mouse_button_press, Enemy, SceneError,
};
use dodge::window::{set_cursor_position_logical, WindowState};

// The scene from `create_app` starts with the cursor at logical
// (650, 350), which the default camera maps to the world point (10, 10):
// strictly inside the enemy's 100 by 100 box around the origin.

#[test]
fn test_click_inside_displaces_center() {
    let mut app = create_app();
    let r = respond_to_mouse_button_press(&mut app, true);
    assert!(r.is_ok());
    assert_eq!(get_enemy_position(&app), Vec2i::new(-10, -10));
}

#[test]
fn test_click_outside_leaves_center() {
    let mut app = create_app();
    // Logical (700, 360) maps to world (60, 0): outside the box.
    set_cursor_position_logical(&mut app.windows[0], Vec2i::new(700, 360));
    let r = respond_to_mouse_button_press(&mut app, true);
    assert!(r.is_ok());
    assert_eq!(get_enemy_position(&app), Vec2i::new(0, 0));
}

#[test]
fn test_click_without_cursor_leaves_center() {
    let mut app = create_app();
    app.windows[0] = WindowState { cursor: None };
    let r = respond_to_mouse_button_press(&mut app, true);
    assert!(r.is_ok());
    assert_eq!(get_enemy_position(&app), Vec2i::new(0, 0));
}

#[test]
fn test_unpressed_button_leaves_center() {
    let mut app = create_app();
    // Cursor is inside the enemy's projected area, but the button is up.
    let r = respond_to_mouse_button_press(&mut app, false);
    assert!(r.is_ok());
    assert_eq!(get_enemy_position(&app), Vec2i::new(0, 0));
}

#[test]
fn test_zero_cameras_is_reported() {
    let mut app = create_app();
    app.cameras.clear();
    let r = respond_to_mouse_button_press(&mut app, true);
    assert_eq!(r, Err(SceneError::NoCamera));
    assert_eq!(get_enemy_position(&app), Vec2i::new(0, 0));
}

#[test]
fn test_two_cameras_are_reported() {
    let mut app = create_app();
    app.cameras.push(CameraModel {
        position: Vec2i::new(0, 0),
        viewport_width: 1280,
        viewport_height: 720,
        scale: 1,
    });
    let r = respond_to_mouse_button_press(&mut app, true);
    assert_eq!(r, Err(SceneError::MultipleCameras));
}

#[test]
fn test_zero_windows_are_reported() {
    let mut app = create_app();
    app.windows.clear();
    let r = respond_to_mouse_button_press(&mut app, true);
    assert_eq!(r, Err(SceneError::NoWindow));
}

#[test]
fn test_two_windows_are_reported() {
    let mut app = create_app();
    app.windows.push(WindowState { cursor: None });
    let r = respond_to_mouse_button_press(&mut app, true);
    assert_eq!(r, Err(SceneError::MultipleWindows));
}

#[test]
fn test_zero_enemies_are_reported() {
    let mut app = create_app();
    app.enemies.clear();
    let r = respond_to_mouse_button_press(&mut app, true);
    assert_eq!(r, Err(SceneError::NoEnemy));
}

#[test]
fn test_two_enemies_are_reported() {
    let mut app = create_app();
    app.enemies.push(Enemy { position: Vec2i::new(300, 300), scale: Vec2i::new(100, 100) });
    let r = respond_to_mouse_button_press(&mut app, true);
    assert_eq!(r, Err(SceneError::MultipleEnemies));
}

#[test]
fn test_degenerate_camera_is_a_quiet_no_op() {
    let mut app = create_app();
    app.cameras[0] = CameraModel {
        position: Vec2i::new(0, 0),
        viewport_width: 1280,
        viewport_height: 720,
        scale: 0,
    };
    let r = respond_to_mouse_button_press(&mut app, true);
    assert!(r.is_ok());
    assert_eq!(get_enemy_position(&app), Vec2i::new(0, 0));
}

#[test]
fn test_click_on_edge_leaves_center() {
    let mut app = create_app();
    // Logical (690, 360) maps to world (50, 0): exactly on the right edge.
    set_cursor_position_logical(&mut app.windows[0], Vec2i::new(690, 360));
    let r = respond_to_mouse_button_press(&mut app, true);
    assert!(r.is_ok());
    assert_eq!(get_enemy_position(&app), Vec2i::new(0, 0));
}

#[test]
fn test_held_button_displaces_again() {
    let mut app = create_app();
    // World point (10, 10): first tick jumps the center to (-10, -10).
    let r = respond_to_mouse_button_press(&mut app, true);
    assert!(r.is_ok());
    assert_eq!(get_enemy_position(&app), Vec2i::new(-10, -10));
    // The point is still inside the box around (-10, -10), so a held
    // button displaces again on the next tick: to (-30, -30).
    let r = respond_to_mouse_button_press(&mut app, true);
    assert!(r.is_ok());
    assert_eq!(get_enemy_position(&app), Vec2i::new(-30, -30));
}
