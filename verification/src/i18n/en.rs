//! English UI strings.

use vstd::prelude::*;

use super::UiText;

verus! {

/// The English string table.
pub open spec fn spec_texts() -> UiText {
    UiText {
        header_subtitle: "Microphone → virtual cable",
        status_active: "Active",
        status_reconnecting: "Reconnecting…",
        status_inactive: "Off",
        btn_quit: "Quit",
        btn_apply: "Apply",
        btn_cancel: "Cancel",
        section_general: "GENERAL",
        section_routing: "ROUTING",
        section_devices: "DEVICES",
        section_audio: "AUDIO",
        routing_enable: "Enable routing",
        device_mic: "Microphone",
        device_vac: "Virtual mic",
        device_monitor: "Monitor output",
        monitor_headphones: "Headphone monitor",
        monitor_volume: "Listen volume",
        gain_voice: "Voice gain",
        gain_master: "Master",
        buffer_latency: "Buffer",
        buffer_hint: "Raise the buffer to 256 or 512 if you hear crackling.",
        status_send_failed: "Saved, but the audio engine did not receive the new settings.",
        status_command_failed: "The audio engine did not receive the command.",
        status_apply_ok: "Settings applied.",
        status_routing_on: "Routing enabled.",
        status_routing_off: "Routing disabled.",
        window_title: "MixMixer — Settings",
        tray_about: "About",
        tray_quit: "Quit",
        tray_tooltip: "MixMixer",
        about_title: "About MixMixer",
        about_description: "Routes your post–Equalizer APO microphone to VB-Audio Virtual Cable with minimal latency.",
        about_url: "https://github.com/Mestryx-dev/MixMixer",
    }
}

/// The English string table.
pub fn texts() -> (t: UiText)
    ensures
        t == spec_texts(),
{
    UiText {
        header_subtitle: "Microphone → virtual cable",
        status_active: "Active",
        status_reconnecting: "Reconnecting…",
        status_inactive: "Off",
        btn_quit: "Quit",
        btn_apply: "Apply",
        btn_cancel: "Cancel",
        section_general: "GENERAL",
        section_routing: "ROUTING",
        section_devices: "DEVICES",
        section_audio: "AUDIO",
        routing_enable: "Enable routing",
        device_mic: "Microphone",
        device_vac: "Virtual mic",
        device_monitor: "Monitor output",
        monitor_headphones: "Headphone monitor",
        monitor_volume: "Listen volume",
        gain_voice: "Voice gain",
        gain_master: "Master",
        buffer_latency: "Buffer",
        buffer_hint: "Raise the buffer to 256 or 512 if you hear crackling.",
        status_send_failed: "Saved, but the audio engine did not receive the new settings.",
        status_command_failed: "The audio engine did not receive the command.",
        status_apply_ok: "Settings applied.",
        status_routing_on: "Routing enabled.",
        status_routing_off: "Routing disabled.",
        window_title: "MixMixer — Settings",
        tray_about: "About",
        tray_quit: "Quit",
        tray_tooltip: "MixMixer",
        about_title: "About MixMixer",
        about_description: "Routes your post–Equalizer APO microphone to VB-Audio Virtual Cable with minimal latency.",
        about_url: "https://github.com/Mestryx-dev/MixMixer",
    }
}

} // verus!
