use pet_overlay::lifecycle::Controller;
use pet_overlay::lifecycle::Effect;
use pet_overlay::lifecycle::Phase;
use pet_overlay::lifecycle::settings_window_config;
use pet_overlay::tray::Command;
use pet_overlay::tray::MouseButton;
use pet_overlay::tray::MouseButtonState;
use pet_overlay::tray::dispatch_menu_event;
use pet_overlay::tray::dispatch_tray_click;
use pet_overlay::tray::tray_menu_entries;

fn running_primary() -> Controller {
    let mut ctrl = Controller::new();
    assert_eq!(ctrl.on_instance_arbitration(true), Effect::BuildTray);
    assert_eq!(ctrl.on_tray_built(true), Effect::CreateSettingsWindow);
    assert_eq!(ctrl.phase, Phase::PrimaryRunning);
    ctrl
}

#[test]
fn primary_startup_builds_tray_then_opens_settings() {
    let ctrl = running_primary();
    assert_eq!(ctrl.registry.window_count(), 1);
    assert_eq!(ctrl.registry.window_state(&"settings".to_owned()), Some((true, true)));
}

#[test]
fn secondary_startup_forwards_and_exits_zero() {
    let mut ctrl = Controller::new();
    assert_eq!(ctrl.on_instance_arbitration(false), Effect::ForwardToPrimary);
    assert_eq!(ctrl.phase, Phase::SecondaryForwarded);
    assert_eq!(ctrl.registry.window_count(), 0);
    assert_eq!(ctrl.on_forward_complete(), Effect::Exit(0));
    assert_eq!(ctrl.phase, Phase::Terminated);
    assert_eq!(ctrl.registry.window_count(), 0);
}

#[test]
fn concurrent_startups_produce_one_primary_and_one_forwarded_open() {
    // The single-instance mechanism grants primacy to exactly one attempt.
    let mut first = Controller::new();
    let mut second = Controller::new();
    assert_eq!(first.on_instance_arbitration(true), Effect::BuildTray);
    assert_eq!(second.on_instance_arbitration(false), Effect::ForwardToPrimary);
    assert_eq!(first.on_tray_built(true), Effect::CreateSettingsWindow);
    assert_eq!(second.on_forward_complete(), Effect::Exit(0));

    // The forwarded launch reaches the primary as one command and resolves
    // to one show request on the existing settings window.
    assert_eq!(first.on_secondary_launch(), Effect::ShowAndFocusSettings);
    assert_eq!(first.registry.window_count(), 1);
    assert_eq!(second.registry.window_count(), 0);
}

#[test]
fn tray_build_failure_aborts_startup() {
    let mut ctrl = Controller::new();
    assert_eq!(ctrl.on_instance_arbitration(true), Effect::BuildTray);
    assert_eq!(ctrl.on_tray_built(false), Effect::FatalStartupError);
    assert_eq!(ctrl.phase, Phase::Terminated);
    assert_eq!(ctrl.registry.window_count(), 0);
}

#[test]
fn quit_selection_exits_zero_with_a_window_open() {
    let mut ctrl = running_primary();
    assert_eq!(ctrl.on_menu_event(&"quit".to_owned()), Effect::Exit(0));
    assert_eq!(ctrl.phase, Phase::Terminated);
}

#[test]
fn quit_selection_exits_zero_with_the_window_hidden() {
    let mut ctrl = running_primary();
    ctrl.registry.hide_window(&"settings".to_owned());
    assert_eq!(ctrl.on_menu_event(&"quit".to_owned()), Effect::Exit(0));
    assert_eq!(ctrl.phase, Phase::Terminated);
}

#[test]
fn quit_command_exits_zero_without_any_window() {
    let mut ctrl = running_primary();
    assert_eq!(ctrl.handle_command(Command::Quit), Effect::Exit(0));
    assert_eq!(ctrl.phase, Phase::Terminated);
}

#[test]
fn settings_selection_shows_the_existing_window() {
    let mut ctrl = running_primary();
    assert_eq!(ctrl.on_menu_event(&"settings".to_owned()), Effect::ShowAndFocusSettings);
    assert_eq!(ctrl.registry.window_count(), 1);
}

#[test]
fn unknown_menu_id_is_ignored() {
    let mut ctrl = running_primary();
    assert_eq!(ctrl.on_menu_event(&"restart".to_owned()), Effect::NoEffect);
    assert_eq!(ctrl.phase, Phase::PrimaryRunning);
    assert_eq!(ctrl.registry.window_count(), 1);
}

#[test]
fn primary_release_click_acts_like_the_settings_entry() {
    let mut by_click = running_primary();
    let mut by_menu = running_primary();
    let click = by_click.on_tray_icon_click(MouseButton::Primary, MouseButtonState::Released);
    let menu = by_menu.on_menu_event(&"settings".to_owned());
    assert_eq!(click, menu);
    assert_eq!(click, Effect::ShowAndFocusSettings);
}

#[test]
fn other_clicks_are_ignored() {
    let mut ctrl = running_primary();
    assert_eq!(
        ctrl.on_tray_icon_click(MouseButton::Primary, MouseButtonState::Pressed),
        Effect::NoEffect
    );
    assert_eq!(
        ctrl.on_tray_icon_click(MouseButton::Secondary, MouseButtonState::Released),
        Effect::NoEffect
    );
    assert_eq!(
        ctrl.on_tray_icon_click(MouseButton::Middle, MouseButtonState::Released),
        Effect::NoEffect
    );
    assert_eq!(ctrl.registry.window_state(&"settings".to_owned()), Some((true, true)));
}

#[test]
fn reopen_reshows_a_hidden_window() {
    let mut ctrl = running_primary();
    ctrl.registry.hide_window(&"settings".to_owned());
    assert_eq!(ctrl.registry.window_state(&"settings".to_owned()), Some((false, false)));
    assert_eq!(ctrl.on_reopen(), Effect::ShowAndFocusSettings);
    assert_eq!(ctrl.registry.window_count(), 1);
    assert_eq!(ctrl.registry.window_state(&"settings".to_owned()), Some((true, true)));
}

#[test]
fn reopen_with_a_visible_window_is_harmless() {
    let mut ctrl = running_primary();
    assert_eq!(ctrl.on_reopen(), Effect::ShowAndFocusSettings);
    assert_eq!(ctrl.registry.window_count(), 1);
    assert_eq!(ctrl.registry.window_state(&"settings".to_owned()), Some((true, true)));
}

#[test]
fn menu_lists_settings_before_quit() {
    let entries = tray_menu_entries();
    assert_eq!(entries.len(), 2);
    assert_eq!(entries[0].id, "settings");
    assert_eq!(entries[0].label, "設定");
    assert!(entries[0].enabled);
    assert_eq!(entries[1].id, "quit");
    assert_eq!(entries[1].label, "結束");
    assert!(entries[1].enabled);
}

#[test]
fn menu_dispatch_maps_ids_to_commands() {
    assert_eq!(dispatch_menu_event(&"settings".to_owned()), Some(Command::OpenSettings));
    assert_eq!(dispatch_menu_event(&"quit".to_owned()), Some(Command::Quit));
    assert_eq!(dispatch_menu_event(&"".to_owned()), None);
    assert_eq!(dispatch_menu_event(&"Settings".to_owned()), None);
}

#[test]
fn click_dispatch_accepts_only_primary_release() {
    assert_eq!(
        dispatch_tray_click(MouseButton::Primary, MouseButtonState::Released),
        Some(Command::OpenSettings)
    );
    assert_eq!(dispatch_tray_click(MouseButton::Primary, MouseButtonState::Pressed), None);
    assert_eq!(dispatch_tray_click(MouseButton::Secondary, MouseButtonState::Released), None);
    assert_eq!(dispatch_tray_click(MouseButton::Middle, MouseButtonState::Pressed), None);
}

#[test]
fn settings_window_config_matches_the_design() {
    let c = settings_window_config();
    assert_eq!(c.title, "設定 - Discord Pet Overlay");
    assert_eq!(c.url, "/settings.html");
    assert_eq!((c.width, c.height), (400, 600));
    assert_eq!((c.min_width, c.min_height), (360, 400));
    assert!(c.resizable);
    assert!(c.centered);
}
