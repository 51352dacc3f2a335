use dodge::geometry::Vec2i;
use dodge::scene::{
    count_n_enemies, create_app, get_enemy_position, get_enemy_scale,
    respond_to_mouse_button_press, Scene,
};
use dodge::window::{get_cursor_position_logical, set_cursor_position_logical};

#[test]
fn test_an_empty_app_has_no_enemies() {
    let mut app = Scene::new();
    let r = respond_to_mouse_button_press(&mut app, false);
    assert!(r.is_ok());
    assert_eq!(count_n_enemies(&app), 0);
}

#[test]
fn test_our_app_has_one_enemy() {
    let mut app = create_app();
    let r = respond_to_mouse_button_press(&mut app, false);
    assert!(r.is_ok());
    assert_eq!(count_n_enemies(&app), 1);
}

#[test]
fn test_enemy_is_at_origin() {
    let mut app = create_app();
    let r = respond_to_mouse_button_press(&mut app, false);
    assert!(r.is_ok());
    assert_eq!(get_enemy_position(&app), Vec2i::new(0, 0));
}

#[test]
fn test_enemy_has_the_default_scale() {
    let mut app = create_app();
    let r = respond_to_mouse_button_press(&mut app, false);
    assert!(r.is_ok());
    assert_eq!(get_enemy_scale(&app), Vec2i::new(100, 100));
}

#[test]
fn test_set_cursor_position_logical() {
    let mut app = create_app();
    assert_eq!(app.windows.len(), 1);
    let pos_before = get_cursor_position_logical(&app.windows[0]);
    let new_pos = Vec2i::new(pos_before.x + 1, pos_before.y + 3);
    set_cursor_position_logical(&mut app.windows[0], new_pos);
    let pos_after = get_cursor_position_logical(&app.windows[0]);
    assert_ne!(pos_before, pos_after);
    assert_eq!(new_pos, pos_after);
}

#[test]
fn test_enemy_responds_to_mouse_button_press() {
    let mut app = create_app();
    let r = respond_to_mouse_button_press(&mut app, false);
    assert!(r.is_ok());

    // Not moved yet
    assert_eq!(Vec2i::new(0, 0), get_enemy_position(&app));

    // Press the left mouse button
    let r = respond_to_mouse_button_press(&mut app, true);
    assert!(r.is_ok());

    // Position must have changed now
    assert_ne!(Vec2i::new(0, 0), get_enemy_position(&app));
}
