use mix_mixer::config::{
    default_buffer_frames, default_enabled, default_one, default_sample_rate, Config, Gains,
    Monitor, UNITY_GAIN_BITS,
};
use mix_mixer::error::Error;
use mix_mixer::i18n::Locale;

fn sample() -> Config {
    Config::generate_default(
        Locale::En,
        "fifine Microphone".to_string(),
        "CABLE Input".to_string(),
        "fifine SC3".to_string(),
    )
}

#[test]
fn defaults_match_documentation() {
    let cfg = sample();
    assert_eq!(cfg.sample_rate, 48_000);
    assert_eq!(cfg.buffer_frames, 128);
    assert!(cfg.enabled);
    assert!(!cfg.monitor.enabled);
    assert_eq!(f32::from_bits(cfg.gains.voice_bits), 1.0);
    assert_eq!(f32::from_bits(cfg.gains.master_bits), 1.0);
    assert_eq!(default_sample_rate(), 48_000);
    assert_eq!(default_buffer_frames(), 128);
    assert!(default_enabled());
    assert_eq!(default_one(), 1.0f32.to_bits());
    assert_eq!(UNITY_GAIN_BITS, 1.0f32.to_bits());
    assert_eq!(Gains::default(), Gains { voice_bits: UNITY_GAIN_BITS, master_bits: UNITY_GAIN_BITS });
    assert_eq!(Monitor::default(), Monitor { enabled: false, volume_bits: UNITY_GAIN_BITS });
    assert_eq!(f32::from_bits(cfg.monitor.volume_bits), 1.0);
    assert!(cfg.validate().is_ok());
}

fn config_error(cfg: &Config) -> String {
    match cfg.validate() {
        Err(Error::Config(msg)) => msg,
        _ => panic!("expected a config error"),
    }
}

#[test]
fn validate_reports_each_problem() {
    let mut cfg = sample();
    cfg.sample_rate = 0;
    assert_eq!(config_error(&cfg), "sample_rate must be > 0");
    let mut cfg = sample();
    cfg.buffer_frames = 0;
    assert_eq!(config_error(&cfg), "buffer_frames must be > 0");
    let mut cfg = sample();
    cfg.devices.voice_input.clear();
    assert_eq!(config_error(&cfg), "devices.voice_input is required");
    let mut cfg = sample();
    cfg.devices.virtual_mic_output.clear();
    assert_eq!(config_error(&cfg), "devices.virtual_mic_output is required");
    let mut cfg = sample();
    cfg.devices.monitor_output.clear();
    assert!(cfg.validate().is_ok());
}

#[test]
fn restart_needed_only_for_stream_fields() {
    let a = sample();
    assert!(!a.needs_stream_restart(&a.clone()));
    let mut b = a.clone();
    b.gains.voice_bits = 0.5f32.to_bits();
    b.locale = Locale::Fr;
    b.enabled = false;
    assert!(!a.needs_stream_restart(&b));
    let mut c = a.clone();
    c.buffer_frames = 256;
    assert!(a.needs_stream_restart(&c));
    assert!(c.needs_stream_restart(&a));
    let mut d = a.clone();
    d.monitor.enabled = true;
    assert!(a.needs_stream_restart(&d));
    let mut e = a.clone();
    e.devices.monitor_output = "Speakers".to_string();
    assert!(a.needs_stream_restart(&e));
    let mut f = a.clone();
    f.sample_rate = 44_100;
    assert!(a.needs_stream_restart(&f));
}
