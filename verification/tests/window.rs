use vista_shell::window::{open_login_window, window_toggle_maximize, LoginStep, MaximizeStep};

#[test]
fn the_maximize_button_toggles() {
    assert_eq!(window_toggle_maximize(true), MaximizeStep::Unmaximize);
    assert_eq!(window_toggle_maximize(false), MaximizeStep::Maximize);
}

#[test]
fn there_is_one_sign_in_window() {
    assert_eq!(open_login_window(false), LoginStep::Open);
    assert_eq!(open_login_window(true), LoginStep::Focus);
}
