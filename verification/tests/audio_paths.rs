use mix_mixer::channel_map::{from_stereo_interleaved, to_stereo_interleaved};
use mix_mixer::config::{Gains, Monitor, UNITY_GAIN_BITS};
use mix_mixer::i18n::Locale;
use mix_mixer::metrics::{routing_status, AudioMetrics, RoutingStatus};
use mix_mixer::mixer::MixControls;
use mix_mixer::render::{render_monitor, render_voice};
use mix_mixer::ring_buffer::SpscRingBuffer;

fn average(l: f32, r: f32) -> f32 {
    (l + r) * 0.5
}

#[test]
fn to_stereo_layouts() {
    assert_eq!(to_stereo_interleaved(&[1.0f32, 2.0], 1), vec![1.0, 1.0, 2.0, 2.0]);
    assert_eq!(to_stereo_interleaved(&[1.0f32, 2.0, 3.0], 2), vec![1.0, 2.0, 3.0]);
    assert_eq!(
        to_stereo_interleaved(&[1, 2, 3, 4, 5, 6, 7], 3),
        vec![1, 2, 4, 5, 7, 7]
    );
    assert_eq!(to_stereo_interleaved::<i32>(&[], 4), Vec::<i32>::new());
}

#[test]
fn from_stereo_layouts() {
    assert_eq!(from_stereo_interleaved(&[1.0f32, 3.0, 5.0], 1, 0.0, average), vec![2.0, 5.0]);
    assert_eq!(from_stereo_interleaved(&[1.0f32, 3.0], 2, 0.0, average), vec![1.0, 3.0]);
    assert_eq!(
        from_stereo_interleaved(&[1, 2, 3], 4, 0, |l: i32, _r: i32| l),
        vec![1, 2, 0, 0, 3, 3, 0, 0]
    );
    assert_eq!(from_stereo_interleaved(&[1, 2], 0, 0, |l: i32, _r: i32| l), Vec::<i32>::new());
}

#[test]
fn metrics_keep_divisors_positive() {
    let mut m = AudioMetrics::new();
    assert_eq!(m.sample_rate(), 48_000);
    assert_eq!(m.buffer_frames(), 128);
    assert_eq!(m.voice_buffer_capacity(), 1);
    m.set_voice_buffer(10, 0);
    m.set_config(0, 0);
    assert_eq!(m.voice_buffer_samples(), 10);
    assert_eq!(m.voice_buffer_capacity(), 1);
    assert_eq!(m.sample_rate(), 1);
    assert_eq!(m.buffer_frames(), 1);
    m.set_streams(2);
    m.set_routing_live(true);
    m.set_reconnect_pending(true);
    assert_eq!(m.streams_active(), 2);
    assert!(m.routing_live());
    assert!(m.reconnect_pending());
}

fn monitor(enabled: bool, volume: f32) -> Monitor {
    Monitor { enabled, volume_bits: volume.to_bits() }
}

fn unity(s: f32) -> f32 {
    s.clamp(-1.0, 1.0)
}

#[test]
fn mix_controls_toggle_volume_and_gains() {
    let mut c = MixControls::from_monitor(&monitor(false, 0.25));
    assert!(!c.monitor_enabled());
    assert_eq!(f32::from_bits(c.monitor_volume()), 0.25);
    assert!(c.toggle_monitor());
    assert!(!c.toggle_monitor());
    assert_eq!(f32::from_bits(c.monitor_volume()), 0.25);
    c.apply_monitor(&monitor(true, 0.75));
    assert!(c.monitor_enabled());
    assert_eq!(f32::from_bits(c.monitor_volume()), 0.75);
    c.set_monitor_enabled(false);
    assert!(!c.monitor_enabled());
    assert_eq!(f32::from_bits(c.monitor_volume()), 0.75);
    let unity = Gains { voice_bits: UNITY_GAIN_BITS, master_bits: UNITY_GAIN_BITS };
    assert_eq!(c.gains(), unity);
    let g = Gains { voice_bits: 0.5f32.to_bits(), master_bits: 2.0f32.to_bits() };
    c.apply_gains(&g);
    assert_eq!(c.gains(), g);
    assert_eq!(f32::from_bits(c.monitor_volume()), 0.75);
    assert!(c.toggle_monitor());
    assert_eq!(c.gains(), g);
    let d = MixControls::from_gains(&g, true);
    assert!(d.monitor_enabled());
    assert_eq!(d.gains(), g);
    assert_eq!(d.monitor_volume(), UNITY_GAIN_BITS);
}

#[test]
fn monitor_volume_scales_samples() {
    let controls = MixControls::from_monitor(&Monitor {
        enabled: true,
        volume_bits: 0.5f32.to_bits(),
    });
    let volume = f32::from_bits(controls.monitor_volume());
    let mut ring = SpscRingBuffer::new(8, 0.0f32);
    ring.push(&[1.0f32, -1.0]);
    let mut samples = [0.0f32; 2];
    render_monitor(&mut samples, 2, &controls, &mut ring, |s: f32| unity(s * volume), average);
    assert_eq!(samples, [0.5, -0.5]);
}

#[test]
fn voice_render_feeds_device_and_monitor() {
    let controls = MixControls::from_monitor(&monitor(true, 1.0));
    let mut voice = SpscRingBuffer::new(16, 0.0f32);
    let mut monitor_rb = SpscRingBuffer::new(16, 0.0f32);
    voice.push(&[0.5, -0.5, 2.0]);
    let mut out = [9.0f32; 4];
    render_voice(&mut out, 2, &controls, &mut voice, &mut monitor_rb, unity, average);
    assert_eq!(out, [0.5, -0.5, 1.0, 0.0]);
    assert_eq!(monitor_rb.available(), 4);
    let mut mono = [9.0f32; 2];
    render_monitor(&mut mono, 1, &controls, &mut monitor_rb, |s: f32| unity(s * 2.0), average);
    assert_eq!(mono, [0.0, 0.5]);
    let off = MixControls::from_monitor(&monitor(false, 1.0));
    let mut quiet = [3.0f32; 2];
    render_monitor(&mut quiet, 2, &off, &mut monitor_rb, unity, average);
    assert_eq!(quiet, [0.0, 0.0]);
}

#[test]
fn wide_layout_round_trip() {
    let stereo = vec![1, 2, 3, 4, 5, 6];
    for ch in [3u16, 4, 6] {
        let device = from_stereo_interleaved(&stereo, ch, 0, |l: i32, _r: i32| l);
        assert_eq!(device.len(), 3 * ch as usize);
        assert_eq!(to_stereo_interleaved(&device, ch), stereo);
    }
}

#[test]
fn monitor_off_fills_any_buffer_with_silence() {
    let off = MixControls::from_monitor(&monitor(false, 1.0));
    let mut ring = SpscRingBuffer::new(4, 0.0f32);
    ring.push(&[0.5, 0.5]);
    let mut odd = [7.0f32; 3];
    render_monitor(&mut odd, 0, &off, &mut ring, unity, average);
    assert_eq!(odd, [0.0, 0.0, 0.0]);
    assert_eq!(ring.available(), 2);
}

#[test]
fn header_status_choice() {
    let en = Locale::En.texts();
    assert_eq!(routing_status(true, true), RoutingStatus::Active);
    assert_eq!(routing_status(false, true), RoutingStatus::Reconnecting);
    assert_eq!(routing_status(false, false), RoutingStatus::Off);
    assert_eq!(RoutingStatus::Active.label(&en), en.status_active);
    assert_eq!(RoutingStatus::Reconnecting.label(&en), en.status_reconnecting);
    assert_eq!(RoutingStatus::Off.label(&en), en.status_inactive);
    let mut m = AudioMetrics::new();
    assert_eq!(m.status(), RoutingStatus::Off);
    m.set_reconnect_pending(true);
    assert_eq!(m.status(), RoutingStatus::Reconnecting);
    m.set_routing_live(true);
    assert_eq!(m.status(), RoutingStatus::Active);
}
