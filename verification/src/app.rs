//! The application's event loop decisions: what each event from the tray or the
//! settings window does to the current configuration and to the audio thread.

use vstd::prelude::*;

use crate::config::{restart_needed, Config};
use crate::engine::AudioCommand;
use crate::tray::TrayAction;

verus! {

/// Events that reach the application loop.
pub enum AppEvent {
    Tray(TrayAction),
    SettingsApplied(Config),
    SetRoutingEnabled(bool),
    Shutdown,
}

/// What the application loop does for an event.
pub enum AppStep {
    /// Open (or focus) the settings window.
    OpenSettings,
    /// Show the About dialog.
    ShowAbout,
    /// Send this command to the audio thread and keep running.
    Send(AudioCommand),
    /// Send `Shutdown` to the audio thread and leave the loop.
    Quit,
}

/// Handles one event. Applied settings become the current configuration and are
/// sent as a restart when streams must be rebuilt, else as a reload; the routing
/// switch updates the configuration and is forwarded; Quit and Shutdown stop.
pub fn route_app_event(config: &mut Config, event: AppEvent) -> (step: AppStep)
    ensures
        match event {
            AppEvent::Tray(TrayAction::OpenSettings) => step is OpenSettings && *final(config) == *old(config),
            AppEvent::Tray(TrayAction::About) => step is ShowAbout && *final(config) == *old(config),
            AppEvent::Tray(TrayAction::Quit) => step is Quit && *final(config) == *old(config),
            AppEvent::Shutdown => step is Quit && *final(config) == *old(config),
            AppEvent::SettingsApplied(new_cfg) => *final(config) == new_cfg && (if restart_needed(new_cfg, *old(config)) {
                step matches AppStep::Send(AudioCommand::RestartWithConfig(c)) && *c == new_cfg
            } else {
                step matches AppStep::Send(AudioCommand::ReloadConfig(c)) && *c == new_cfg
            }),
            AppEvent::SetRoutingEnabled(enabled) => {
                &&& *final(config) == (Config { enabled, ..*old(config) })
                &&& step matches AppStep::Send(AudioCommand::SetRoutingEnabled(e)) && e == enabled
            },
        },
{
    match event {
        AppEvent::Tray(TrayAction::OpenSettings) => AppStep::OpenSettings,
        AppEvent::Tray(TrayAction::About) => AppStep::ShowAbout,
        AppEvent::Tray(TrayAction::Quit) => AppStep::Quit,
        AppEvent::Shutdown => AppStep::Quit,
        AppEvent::SettingsApplied(new_cfg) => {
            let restart = new_cfg.needs_stream_restart(config);
            *config = new_cfg.clone();
            if restart {
                AppStep::Send(AudioCommand::RestartWithConfig(Box::new(new_cfg)))
            } else {
                AppStep::Send(AudioCommand::ReloadConfig(Box::new(new_cfg)))
            }
        },
        AppEvent::SetRoutingEnabled(enabled) => {
            config.enabled = enabled;
            AppStep::Send(AudioCommand::SetRoutingEnabled(enabled))
        },
    }
}

} // verus!
