//! Lifecycle orchestrator: the process-wide state machine that wires
//! single-instance arbitration, the tray and the window registry together.
//!
//! A process starts in `Starting`. The instance granted primacy builds the
//! tray and opens the initial settings window, then stays in
//! `PrimaryRunning` for its whole life, reacting to tray commands, reopen
//! notifications and forwarded secondary launches; the only exit is an
//! explicit quit. An instance denied primacy forwards its launch request to
//! the primary (`SecondaryForwarded`) and terminates without building any
//! UI. A failure to build the tray is fatal: the process must not run
//! headless.
//!
//! Every operating-system action — forwarding, building the tray, creating
//! or showing a window, exiting — is returned to the surrounding
//! application as an [`Effect`]; the controller itself only decides.

use vstd::prelude::*;

use crate::tray::Command;
use crate::tray::settings_id;
use crate::tray::settings_id_string;
use crate::tray::menu_command;
use crate::tray::tray_click_command;
use crate::tray::dispatch_menu_event;
use crate::tray::dispatch_tray_click;
use crate::tray::MouseButton;
use crate::tray::MouseButtonState;
use crate::window::WindowConfig;
use crate::window::WindowConfigView;
use crate::window::WindowRegistry;
use crate::window::TrackedWindowView;
use crate::window::wf_registry;
use crate::window::has_window;
use crate::window::window_index;
use crate::window::count_id;
use crate::window::ensure_visible;
use crate::window::lemma_ensure_visible_shows_window;
use crate::window::lemma_ensure_visible_wf;
use crate::window::lemma_count_unique;

verus! {

/// The lifecycle states of one process instance.
#[derive(Clone, Copy, PartialEq, Eq, Structural, Debug)]
pub enum Phase {
    /// Startup: arbitration and tray construction are still ahead.
    Starting,
    /// This instance is the primary; the steady state for its whole life.
    PrimaryRunning,
    /// This instance was denied primacy and has forwarded its launch.
    SecondaryForwarded,
    /// The process is exiting.
    Terminated,
}

/// An operating-system action the surrounding application must carry out
/// after a controller step.
#[derive(Clone, Copy, PartialEq, Eq, Structural, Debug)]
pub enum Effect {
    /// Nothing to do.
    NoEffect,
    /// Build the tray icon and its menu; report the outcome back.
    BuildTray,
    /// Forward this launch to the primary instance, then report back.
    ForwardToPrimary,
    /// Create the settings window from [`settings_window_config`].
    CreateSettingsWindow,
    /// Show and focus the existing settings window.
    ShowAndFocusSettings,
    /// Startup cannot continue (no tray): abort with a diagnostic and a
    /// non-zero exit code.
    FatalStartupError,
    /// Terminate the process with this exit code.
    Exit(i32),
}

/// Construction parameters of the settings window.
pub open spec fn settings_config() -> WindowConfigView {
    WindowConfigView {
        title: "設定 - Discord Pet Overlay"@,
        url: "/settings.html"@,
        width: 400,
        height: 600,
        min_width: 360,
        min_height: 400,
        resizable: true,
        centered: true,
    }
}

/// The settings window's construction parameters, as handed to the window
/// registry and to the platform.
pub fn settings_window_config() -> (c: WindowConfig)
    ensures
        c@ == settings_config(),
{
    WindowConfig {
        title: "設定 - Discord Pet Overlay".to_owned(),
        url: "/settings.html".to_owned(),
        width: 400,
        height: 600,
        min_width: 360,
        min_height: 400,
        resizable: true,
        centered: true,
    }
}

/// The phase arbitration leads to: the instance granted primacy continues
/// its startup, the denied one forwards.
pub open spec fn arbitration_phase(granted: bool) -> Phase {
    if granted {
        Phase::Starting
    } else {
        Phase::SecondaryForwarded
    }
}

/// The action arbitration asks of the application: build the tray, or
/// forward the launch to the primary.
pub open spec fn arbitration_effect(granted: bool) -> Effect {
    if granted {
        Effect::BuildTray
    } else {
        Effect::ForwardToPrimary
    }
}

/// The controller's reaction to a command while primary-running: the next
/// phase, the next registry model, and the effect handed to the platform.
/// Every command except quit ensures the settings window is visible.
pub open spec fn command_step(ws: Seq<TrackedWindowView>, cmd: Command) -> (
    Phase,
    Seq<TrackedWindowView>,
    Effect,
) {
    match cmd {
        Command::Quit => (Phase::Terminated, ws, Effect::Exit(0i32)),
        _ => (
            Phase::PrimaryRunning,
            ensure_visible(ws, settings_id(), settings_config()),
            if has_window(ws, settings_id()) {
                Effect::ShowAndFocusSettings
            } else {
                Effect::CreateSettingsWindow
            },
        ),
    }
}

/// The lifecycle controller: the current phase and the window registry it
/// exclusively owns.
pub struct Controller {
    pub phase: Phase,
    pub registry: WindowRegistry,
}

impl Controller {
    /// The controller's invariant: the registry is well-formed, and no
    /// window exists before the instance is primary (a secondary builds no
    /// UI).
    pub open spec fn inv(&self) -> bool {
        &&& wf_registry(self.registry@)
        &&& (self.phase == Phase::Starting || self.phase == Phase::SecondaryForwarded)
            ==> self.registry@.len() == 0
    }

    /// A fresh instance, about to attempt single-instance arbitration.
    pub fn new() -> (c: Controller)
        ensures
            c.inv(),
            c.phase == Phase::Starting,
            c.registry@.len() == 0,
    {
        Controller { phase: Phase::Starting, registry: WindowRegistry::new() }
    }

    /// Record the outcome of single-instance arbitration: the instance
    /// granted primacy goes on to build the tray; the denied one forwards
    /// its launch and will terminate.
    pub fn on_instance_arbitration(&mut self, granted_primary: bool) -> (e: Effect)
        requires
            old(self).inv(),
            old(self).phase == Phase::Starting,
        ensures
            final(self).inv(),
            final(self).phase == arbitration_phase(granted_primary),
            final(self).registry@ == old(self).registry@,
            e == arbitration_effect(granted_primary),
    {
        if granted_primary {
            Effect::BuildTray
        } else {
            self.phase = Phase::SecondaryForwarded;
            Effect::ForwardToPrimary
        }
    }

    /// Record the outcome of building the tray. With a tray the instance
    /// opens the initial settings window unconditionally and reaches the
    /// steady state; without one it must abort rather than run headless.
    pub fn on_tray_built(&mut self, success: bool) -> (e: Effect)
        requires
            old(self).inv(),
            old(self).phase == Phase::Starting,
        ensures
            final(self).inv(),
            success ==> {
                &&& final(self).phase == Phase::PrimaryRunning
                &&& final(self).registry@ == ensure_visible(
                    old(self).registry@,
                    settings_id(),
                    settings_config(),
                )
                &&& e == Effect::CreateSettingsWindow
            },
            !success ==> {
                &&& final(self).phase == Phase::Terminated
                &&& final(self).registry@ == old(self).registry@
                &&& e == Effect::FatalStartupError
            },
    {
        if success {
            self.phase = Phase::PrimaryRunning;
            self.registry.ensure_window_visible(settings_id_string(), settings_window_config());
            proof {
                lemma_ensure_visible_wf(old(self).registry@, settings_id(), settings_config());
            }
            Effect::CreateSettingsWindow
        } else {
            self.phase = Phase::Terminated;
            Effect::FatalStartupError
        }
    }

    /// A secondary instance is done forwarding: it terminates normally,
    /// having built no UI of its own.
    pub fn on_forward_complete(&mut self) -> (e: Effect)
        requires
            old(self).inv(),
            old(self).phase == Phase::SecondaryForwarded,
        ensures
            final(self).inv(),
            final(self).phase == Phase::Terminated,
            final(self).registry@ == old(self).registry@,
            e == Effect::Exit(0i32),
    {
        self.phase = Phase::Terminated;
        Effect::Exit(0)
    }

    /// Central dispatch in the steady state: apply one typed command. An
    /// open request — from the menu, a tray click, a reopen notification or
    /// a forwarded secondary launch — ensures the settings window is
    /// visible and focused; quit terminates with exit code 0 regardless of
    /// the window state.
    pub fn handle_command(&mut self, cmd: Command) -> (e: Effect)
        requires
            old(self).inv(),
            old(self).phase == Phase::PrimaryRunning,
        ensures
            final(self).inv(),
            ({
                let (phase, ws, effect) = command_step(old(self).registry@, cmd);
                &&& final(self).phase == phase
                &&& final(self).registry@ == ws
                &&& e == effect
            }),
    {
        match cmd {
            Command::Quit => {
                self.phase = Phase::Terminated;
                Effect::Exit(0)
            },
            _ => {
                let created = self.registry.ensure_window_visible(
                    settings_id_string(),
                    settings_window_config(),
                );
                proof {
                    lemma_ensure_visible_wf(old(self).registry@, settings_id(), settings_config());
                }
                if created {
                    Effect::CreateSettingsWindow
                } else {
                    Effect::ShowAndFocusSettings
                }
            },
        }
    }

    /// A tray menu selection, dispatched by entry id; an unknown id is
    /// ignored.
    pub fn on_menu_event(&mut self, id: &String) -> (e: Effect)
        requires
            old(self).inv(),
            old(self).phase == Phase::PrimaryRunning,
        ensures
            final(self).inv(),
            match menu_command(id@) {
                Some(cmd) => ({
                    let (phase, ws, effect) = command_step(old(self).registry@, cmd);
                    &&& final(self).phase == phase
                    &&& final(self).registry@ == ws
                    &&& e == effect
                }),
                None => ({
                    &&& final(self).phase == old(self).phase
                    &&& final(self).registry@ == old(self).registry@
                    &&& e == Effect::NoEffect
                }),
            },
    {
        let c = dispatch_menu_event(id);
        match c {
            Some(cmd) => self.handle_command(cmd),
            None => Effect::NoEffect,
        }
    }

    /// A pointer click on the tray icon itself; only a primary-button
    /// release acts.
    pub fn on_tray_icon_click(&mut self, button: MouseButton, state: MouseButtonState) -> (e:
        Effect)
        requires
            old(self).inv(),
            old(self).phase == Phase::PrimaryRunning,
        ensures
            final(self).inv(),
            match tray_click_command(button, state) {
                Some(cmd) => ({
                    let (phase, ws, effect) = command_step(old(self).registry@, cmd);
                    &&& final(self).phase == phase
                    &&& final(self).registry@ == ws
                    &&& e == effect
                }),
                None => ({
                    &&& final(self).phase == old(self).phase
                    &&& final(self).registry@ == old(self).registry@
                    &&& e == Effect::NoEffect
                }),
            },
    {
        let c = dispatch_tray_click(button, state);
        match c {
            Some(cmd) => self.handle_command(cmd),
            None => Effect::NoEffect,
        }
    }

    /// A reopen-class platform notification (dock reactivation).
    pub fn on_reopen(&mut self) -> (e: Effect)
        requires
            old(self).inv(),
            old(self).phase == Phase::PrimaryRunning,
        ensures
            final(self).inv(),
            ({
                let (phase, ws, effect) = command_step(
                    old(self).registry@,
                    Command::ReopenRequested,
                );
                &&& final(self).phase == phase
                &&& final(self).registry@ == ws
                &&& e == effect
            }),
    {
        self.handle_command(Command::ReopenRequested)
    }

    /// A forwarded launch attempt from a secondary instance.
    pub fn on_secondary_launch(&mut self) -> (e: Effect)
        requires
            old(self).inv(),
            old(self).phase == Phase::PrimaryRunning,
        ensures
            final(self).inv(),
            ({
                let (phase, ws, effect) = command_step(
                    old(self).registry@,
                    Command::SecondaryLaunchForwarded,
                );
                &&& final(self).phase == phase
                &&& final(self).registry@ == ws
                &&& e == effect
            }),
    {
        self.handle_command(Command::SecondaryLaunchForwarded)
    }
}

/// Law: an open-class command (anything but quit) handled while
/// primary-running leaves the settings window present, visible and focused,
/// whatever its prior visibility state, and the instance primary-running.
pub proof fn lemma_open_commands_show_settings(ws: Seq<TrackedWindowView>, cmd: Command)
    requires
        wf_registry(ws),
        cmd != Command::Quit,
    ensures
        ({
            let (phase, ws2, effect) = command_step(ws, cmd);
            &&& phase == Phase::PrimaryRunning
            &&& has_window(ws2, settings_id())
            &&& ws2[window_index(ws2, settings_id())].visible
            &&& ws2[window_index(ws2, settings_id())].focused
        }),
{
    lemma_ensure_visible_shows_window(ws, settings_id(), settings_config());
}

/// Law: a quit command terminates the process with exit code 0, whatever
/// the window state.
pub proof fn lemma_quit_exits_zero(ws: Seq<TrackedWindowView>)
    ensures
        command_step(ws, Command::Quit).0 == Phase::Terminated,
        command_step(ws, Command::Quit).2 == Effect::Exit(0i32),
{
}

/// Law: of two concurrent startup attempts the single-instance mechanism
/// grants primacy to exactly one (`granted1 != granted2` is the mechanism's
/// race-freedom guarantee, stated here as a premise). Exactly one instance
/// proceeds to build a tray; the denied one forwards its launch, terminates
/// with exit code 0 and builds no window; and the primary, handling the one
/// forwarded request, is left with exactly one settings window.
pub proof fn lemma_single_instance_arbitration(
    granted1: bool,
    granted2: bool,
    primary_ws: Seq<TrackedWindowView>,
)
    requires
        granted1 != granted2,
        wf_registry(primary_ws),
    ensures
        (arbitration_effect(granted1) == Effect::BuildTray) != (arbitration_effect(granted2)
            == Effect::BuildTray),
        !granted1 ==> arbitration_phase(granted1) == Phase::SecondaryForwarded
            && arbitration_effect(granted1) == Effect::ForwardToPrimary,
        !granted2 ==> arbitration_phase(granted2) == Phase::SecondaryForwarded
            && arbitration_effect(granted2) == Effect::ForwardToPrimary,
        count_id(
            command_step(primary_ws, Command::SecondaryLaunchForwarded).1,
            settings_id(),
        ) == 1,
{
    lemma_ensure_visible_shows_window(primary_ws, settings_id(), settings_config());
    lemma_ensure_visible_wf(primary_ws, settings_id(), settings_config());
    lemma_count_unique(
        ensure_visible(primary_ws, settings_id(), settings_config()),
        settings_id(),
    );
}

} // verus!
