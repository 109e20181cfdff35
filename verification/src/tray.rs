//! Tray controller: the tray icon's context menu and the mapping of
//! tray events — menu selections and pointer clicks on the icon itself —
//! into typed commands for the central dispatch.
//!
//! The menu holds exactly two entries, "settings" before "quit", both
//! enabled. A menu selection is dispatched by entry id; a click on the icon
//! opens the settings window only for a primary-button release, every other
//! button/state combination is ignored. The context menu itself appears on
//! the secondary button only — a configuration of the icon, not a code path
//! here.

use vstd::prelude::*;

verus! {

/// Pointer button of a click on the tray icon.
#[derive(Clone, Copy, PartialEq, Eq, Structural, Debug)]
pub enum MouseButton {
    Primary,
    Secondary,
    Middle,
}

/// Press/release state of a click on the tray icon.
#[derive(Clone, Copy, PartialEq, Eq, Structural, Debug)]
pub enum MouseButtonState {
    Pressed,
    Released,
}

/// A typed command for the central dispatch; each inbound event maps to one
/// of these, or to none.
#[derive(Clone, Copy, PartialEq, Eq, Structural, Debug)]
pub enum Command {
    /// Ensure the settings window exists, is visible and is focused.
    OpenSettings,
    /// Terminate the process normally.
    Quit,
    /// A platform "reopen" notification (dock reactivation) arrived.
    ReopenRequested,
    /// A secondary launch was forwarded by the single-instance mechanism.
    SecondaryLaunchForwarded,
}

/// One entry of the tray's context menu.
pub struct MenuEntry {
    pub id: String,
    pub label: String,
    pub enabled: bool,
}

/// The id of the menu entry (and of the window) for the settings surface.
pub open spec fn settings_id() -> Seq<char> {
    "settings"@
}

/// The id of the menu entry that terminates the process.
pub open spec fn quit_id() -> Seq<char> {
    "quit"@
}

/// The settings id as a `String`, for registry lookups and comparisons.
pub fn settings_id_string() -> (s: String)
    ensures
        s@ == settings_id(),
{
    "settings".to_owned()
}

/// The tray's context menu: the settings entry first, the quit entry
/// second, both enabled.
pub fn tray_menu_entries() -> (entries: Vec<MenuEntry>)
    ensures
        entries@.len() == 2,
        entries@[0].id@ == settings_id(),
        entries@[0].label@ == "設定"@,
        entries@[0].enabled,
        entries@[1].id@ == quit_id(),
        entries@[1].label@ == "結束"@,
        entries@[1].enabled,
{
    let mut entries: Vec<MenuEntry> = Vec::new();
    entries.push(
        MenuEntry { id: "settings".to_owned(), label: "設定".to_owned(), enabled: true },
    );
    entries.push(MenuEntry { id: "quit".to_owned(), label: "結束".to_owned(), enabled: true });
    entries
}

/// The command a menu selection maps to: the settings entry opens the
/// settings window, the quit entry terminates the process, an unknown id is
/// ignored.
pub open spec fn menu_command(id: Seq<char>) -> Option<Command> {
    if id == settings_id() {
        Some(Command::OpenSettings)
    } else if id == quit_id() {
        Some(Command::Quit)
    } else {
        None
    }
}

/// The command of a menu selection, dispatched by entry id.
pub fn dispatch_menu_event(id: &String) -> (c: Option<Command>)
    ensures
        c == menu_command(id@),
{
    let settings = settings_id_string();
    if *id == settings {
        Some(Command::OpenSettings)
    } else {
        let quit: String = "quit".to_owned();
        if *id == quit {
            Some(Command::Quit)
        } else {
            None
        }
    }
}

/// The command a pointer click on the tray icon maps to: only a
/// primary-button release opens the settings window; a press, or any other
/// button, is ignored.
pub open spec fn tray_click_command(button: MouseButton, state: MouseButtonState) -> Option<
    Command,
> {
    if button == MouseButton::Primary && state == MouseButtonState::Released {
        Some(Command::OpenSettings)
    } else {
        None
    }
}

/// The command of a pointer click on the tray icon.
pub fn dispatch_tray_click(button: MouseButton, state: MouseButtonState) -> (c: Option<Command>)
    ensures
        c == tray_click_command(button, state),
{
    match (button, state) {
        (MouseButton::Primary, MouseButtonState::Released) => Some(Command::OpenSettings),
        _ => None,
    }
}

/// Law: a primary-button release on the tray icon carries exactly the
/// command of selecting the settings menu entry, and every other
/// button/state combination carries none.
pub proof fn lemma_primary_release_equals_settings_selection()
    ensures
        tray_click_command(MouseButton::Primary, MouseButtonState::Released) == menu_command(
            settings_id(),
        ),
        forall|b: MouseButton, s: MouseButtonState|
            !(b == MouseButton::Primary && s == MouseButtonState::Released)
                ==> tray_click_command(b, s) is None,
{
}

} // verus!
