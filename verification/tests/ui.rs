use mix_mixer::app::{route_app_event, AppEvent, AppStep};
use mix_mixer::config::Config;
use mix_mixer::devices::DeviceLists;
use mix_mixer::engine::AudioCommand;
use mix_mixer::error::Error;
use mix_mixer::i18n::Locale;
use mix_mixer::settings::{
    normalize_config_devices, picker_display, resolve_device_name, ApplyOutcome, SettingsForm,
};
use mix_mixer::tray::{simple_tray_rgba, TrayAction};
use mix_mixer::ui_text::{about_message, truncate_end};

fn cfg() -> Config {
    Config::generate_default(
        Locale::En,
        "fifine microphone".to_string(),
        "cable".to_string(),
        "sc3".to_string(),
    )
}

#[test]
fn tray_icon_pixels() {
    let rgba = simple_tray_rgba();
    assert_eq!(rgba.len(), 16 * 16 * 4);
    let px = |x: usize, y: usize| &rgba[(y * 16 + x) * 4..(y * 16 + x) * 4 + 4];
    assert_eq!(px(0, 0), &[79, 140, 255, 0]);
    assert_eq!(px(3, 3), &[79, 140, 255, 180]);
    assert_eq!(px(4, 4), &[79, 140, 255, 255]);
    assert_eq!(px(11, 11), &[79, 140, 255, 255]);
    assert_eq!(px(12, 12), &[79, 140, 255, 180]);
    assert_eq!(px(13, 12), &[79, 140, 255, 0]);
}

#[test]
fn truncate_marks_cut() {
    assert_eq!(truncate_end("short", 28), "short");
    assert_eq!(truncate_end("abcdef", 4), "abc…");
    assert_eq!(truncate_end("abcdef", 0), "…");
    assert_eq!(truncate_end("ééééé", 5), "ééééé");
}

#[test]
fn about_text_layout() {
    let (title, body) = about_message(Locale::En, "0.1.4", "C:\\cfg.json");
    let t = Locale::En.texts();
    assert_eq!(title, t.about_title);
    assert_eq!(
        body,
        format!("{}\n\nVersion 0.1.4\n{}\n\nConfig:\nC:\\cfg.json", t.about_description, t.about_url)
    );
}

#[test]
fn error_descriptions() {
    assert_eq!(Error::config("x").describe(), "config: x");
    assert_eq!(Error::device("d").describe(), "device: d");
    assert_eq!(Error::audio("a").describe(), "audio: a");
    assert_eq!(Error::soundboard("s").describe(), "soundboard: s");
    assert_eq!(Error::Tray("t".to_string()).describe(), "tray: t");
}

#[test]
fn settings_resolve_and_normalize() {
    let outputs = vec!["Speakers".to_string(), "CABLE Input (VB-Audio)".to_string()];
    assert_eq!(resolve_device_name(&outputs, "cable"), "CABLE Input (VB-Audio)");
    assert_eq!(resolve_device_name(&outputs, "nothing"), "Speakers");
    assert_eq!(resolve_device_name(&[], "query"), "query");
    let mut c = cfg();
    c.devices.virtual_mic_output = "CABLE Input (VB-Audio Virtual Cable)".to_string();
    normalize_config_devices(&mut c);
    assert_eq!(c.devices.virtual_mic_output, "CABLE Input");
    assert_eq!(c.devices.voice_input, "fifine Microphone");
}

#[test]
fn settings_apply_cancel_and_routing() {
    let lists = DeviceLists {
        inputs: vec!["Microphone (fifine Microphone)".to_string()],
        outputs: vec!["CABLE Input (VB-Audio)".to_string(), "Speakers (fifine SC3)".to_string()],
    };
    let texts = Locale::En.texts();
    let mut form = SettingsForm::new(cfg(), &lists, texts);
    assert_eq!(form.baseline.devices.voice_input, "Microphone (fifine Microphone)");
    assert_eq!(form.baseline.devices.monitor_output, "Speakers (fifine SC3)");
    form.draft.buffer_frames = 512;
    let saved = form.begin_apply();
    assert_eq!(saved.devices.virtual_mic_output, "CABLE Input");
    form.finish_apply(ApplyOutcome::Applied);
    assert_eq!(form.baseline.buffer_frames, 512);
    assert_eq!(form.status, texts.status_apply_ok);
    form.draft.buffer_frames = 256;
    form.cancel();
    assert_eq!(form.draft.buffer_frames, 512);
    assert!(form.status.is_empty());
    assert!(form.begin_set_routing(true).is_none());
    let to_save = form.begin_set_routing(false).unwrap();
    assert!(!to_save.enabled);
    form.finish_set_routing(false, ApplyOutcome::SendFailed);
    assert!(form.draft.enabled);
    assert_eq!(form.status, texts.status_command_failed);
    form.begin_set_routing(false);
    form.finish_set_routing(false, ApplyOutcome::SaveFailed(Error::config("disk full")));
    assert_eq!(form.status, "config: disk full");
    form.begin_set_routing(false);
    form.finish_set_routing(false, ApplyOutcome::Applied);
    assert!(!form.baseline.enabled);
    assert_eq!(form.status, texts.status_routing_off);
}

#[test]
fn app_events_route_to_audio_commands() {
    let mut current = cfg();
    assert!(matches!(route_app_event(&mut current, AppEvent::Tray(TrayAction::OpenSettings)), AppStep::OpenSettings));
    assert!(matches!(route_app_event(&mut current, AppEvent::Tray(TrayAction::About)), AppStep::ShowAbout));
    let mut hot = cfg();
    hot.gains.voice_bits = 0.5f32.to_bits();
    assert!(matches!(
        route_app_event(&mut current, AppEvent::SettingsApplied(hot)),
        AppStep::Send(AudioCommand::ReloadConfig(_))
    ));
    assert_eq!(f32::from_bits(current.gains.voice_bits), 0.5);
    let mut cold = cfg();
    cold.buffer_frames = 512;
    assert!(matches!(
        route_app_event(&mut current, AppEvent::SettingsApplied(cold)),
        AppStep::Send(AudioCommand::RestartWithConfig(_))
    ));
    assert!(matches!(
        route_app_event(&mut current, AppEvent::SetRoutingEnabled(false)),
        AppStep::Send(AudioCommand::SetRoutingEnabled(false))
    ));
    assert!(!current.enabled);
    assert!(matches!(route_app_event(&mut current, AppEvent::Tray(TrayAction::Quit)), AppStep::Quit));
    assert!(matches!(route_app_event(&mut current, AppEvent::Shutdown), AppStep::Quit));
}

#[test]
fn apply_twice_keeps_queries() {
    let lists = DeviceLists {
        inputs: vec!["Microphone (2- fifine Microphone)".to_string()],
        outputs: vec!["CABLE Input (VB-Audio Virtual Cable)".to_string(), "Speakers".to_string()],
    };
    let mut form = SettingsForm::new(cfg(), &lists, Locale::En.texts());
    let first = form.begin_apply();
    let second = form.begin_apply();
    assert_eq!(first.devices.voice_input, "fifine Microphone");
    assert_eq!(first.devices.virtual_mic_output, "CABLE Input");
    assert_eq!(second.devices.voice_input, first.devices.voice_input);
    assert_eq!(second.devices.virtual_mic_output, first.devices.virtual_mic_output);
    assert_eq!(second.devices.monitor_output, first.devices.monitor_output);
}

#[test]
fn picker_shows_saved_or_resolved_name() {
    let outputs = vec!["Speakers".to_string(), "CABLE Input (VB-Audio)".to_string()];
    assert_eq!(picker_display(&outputs, "Speakers"), "Speakers");
    assert_eq!(picker_display(&outputs, "cable"), "CABLE Input (VB-Audio)");
    assert_eq!(picker_display(&outputs, "missing"), "Speakers");
    assert_eq!(picker_display(&[], "query"), "query");
}
