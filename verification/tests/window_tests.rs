use pet_overlay::window::WindowConfig;
use pet_overlay::window::WindowRegistry;

fn config(title: &str) -> WindowConfig {
    WindowConfig {
        title: title.to_owned(),
        url: "/settings.html".to_owned(),
        width: 400,
        height: 600,
        min_width: 360,
        min_height: 400,
        resizable: true,
        centered: true,
    }
}

#[test]
fn first_request_creates_a_window() {
    let mut reg = WindowRegistry::new();
    assert_eq!(reg.window_count(), 0);
    let created = reg.ensure_window_visible("settings".to_owned(), config("Settings"));
    assert!(created);
    assert_eq!(reg.window_count(), 1);
    assert_eq!(reg.window_state(&"settings".to_owned()), Some((true, true)));
}

#[test]
fn second_request_does_not_duplicate() {
    let mut reg = WindowRegistry::new();
    let first = reg.ensure_window_visible("settings".to_owned(), config("Settings"));
    let second = reg.ensure_window_visible("settings".to_owned(), config("Settings"));
    assert!(first);
    assert!(!second);
    assert_eq!(reg.window_count(), 1);
    assert_eq!(reg.window_state(&"settings".to_owned()), Some((true, true)));
}

#[test]
fn hidden_window_is_reshown_not_recreated() {
    let mut reg = WindowRegistry::new();
    reg.ensure_window_visible("settings".to_owned(), config("Settings"));
    reg.hide_window(&"settings".to_owned());
    assert_eq!(reg.window_state(&"settings".to_owned()), Some((false, false)));
    assert_eq!(reg.window_count(), 1);

    let created = reg.ensure_window_visible("settings".to_owned(), config("Settings"));
    assert!(!created);
    assert_eq!(reg.window_count(), 1);
    assert_eq!(reg.window_state(&"settings".to_owned()), Some((true, true)));
}

#[test]
fn hiding_an_unknown_id_changes_nothing() {
    let mut reg = WindowRegistry::new();
    reg.ensure_window_visible("settings".to_owned(), config("Settings"));
    reg.hide_window(&"other".to_owned());
    assert_eq!(reg.window_count(), 1);
    assert_eq!(reg.window_state(&"settings".to_owned()), Some((true, true)));
    assert_eq!(reg.window_state(&"other".to_owned()), None);
}

#[test]
fn distinct_ids_are_tracked_separately() {
    let mut reg = WindowRegistry::new();
    assert!(reg.ensure_window_visible("settings".to_owned(), config("Settings")));
    assert!(reg.ensure_window_visible("about".to_owned(), config("About")));
    assert_eq!(reg.window_count(), 2);
    reg.hide_window(&"about".to_owned());
    assert_eq!(reg.window_state(&"settings".to_owned()), Some((true, true)));
    assert_eq!(reg.window_state(&"about".to_owned()), Some((false, false)));
}
