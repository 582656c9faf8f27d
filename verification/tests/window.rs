use dsh_desktop::paths::{desktop_log_file, window_state_file};
use dsh_desktop::window::{
    captured_state, restore_plan, surface_on_relaunch, RestorePlan, WindowState,
};

#[test]
fn large_enough_sizes_are_restored() {
    let state = WindowState { width: 1280, height: 800, x: 10, y: -20, maximized: false };
    assert_eq!(
        restore_plan(&state),
        RestorePlan { size: Some((1280, 800)), position: (10, -20), maximize: false }
    );
}

#[test]
fn the_minimum_size_itself_is_restored() {
    let state = WindowState { width: 960, height: 640, x: 0, y: 0, maximized: true };
    assert_eq!(
        restore_plan(&state),
        RestorePlan { size: Some((960, 640)), position: (0, 0), maximize: true }
    );
}

#[test]
fn small_sizes_are_not_restored_but_the_position_is() {
    let state = WindowState { width: 959, height: 2000, x: 5, y: 6, maximized: false };
    assert_eq!(
        restore_plan(&state),
        RestorePlan { size: None, position: (5, 6), maximize: false }
    );
    let state = WindowState { width: 2000, height: 639, x: 5, y: 6, maximized: true };
    assert_eq!(
        restore_plan(&state),
        RestorePlan { size: None, position: (5, 6), maximize: true }
    );
}

#[test]
fn captured_state_counts_unknown_maximized_as_not_maximized() {
    assert_eq!(
        captured_state(1000, 700, 1, 2, None),
        WindowState { width: 1000, height: 700, x: 1, y: 2, maximized: false }
    );
    assert_eq!(
        captured_state(1000, 700, 1, 2, Some(true)),
        WindowState { width: 1000, height: 700, x: 1, y: 2, maximized: true }
    );
}

#[test]
fn restoring_a_captured_state_gives_it_back() {
    let plan = restore_plan(&captured_state(1024, 768, -3, 4, Some(true)));
    assert_eq!(plan, RestorePlan { size: Some((1024, 768)), position: (-3, 4), maximize: true });
}

#[test]
fn relaunch_leaves_a_window_on_screen_alone() {
    assert!(!surface_on_relaunch(Some(true), Some(false)));
    assert!(surface_on_relaunch(Some(false), Some(false)));
    assert!(surface_on_relaunch(Some(true), Some(true)));
    assert!(surface_on_relaunch(None, Some(false)));
    assert!(surface_on_relaunch(Some(true), None));
}

#[test]
fn window_state_lives_in_the_config_folder() {
    let expected = std::path::Path::new("cfg").join("window.json");
    assert_eq!(window_state_file("cfg"), expected.to_string_lossy());
    assert_eq!(window_state_file(""), "window.json");
    let expected = std::path::Path::new("logs").join("desktop.log");
    assert_eq!(desktop_log_file("logs"), expected.to_string_lossy());
}
