use mix_mixer::engine::{
    input_needs_resampling, pick_native_stream_config, pick_stream_config, plan_apply_config,
    restart_retry_delay_ms,
    ApplyPlan, HealthPlan, ReconnectState, RECONNECT_INITIAL_MS, RECONNECT_MAX_MS,
};

#[test]
fn backoff_doubles_up_to_max() {
    let mut s = ReconnectState::idle(0);
    s.schedule_fault(1_000);
    assert_eq!(s, ReconnectState { pending: true, next_at_ms: 1_400, delay_ms: RECONNECT_INITIAL_MS });
    let mut delays = Vec::new();
    for _ in 0..6 {
        s.backoff(2_000);
        delays.push(s.delay_ms);
    }
    assert_eq!(delays, vec![800, 1600, 3200, 5000, 5000, 5000]);
    assert_eq!(s.next_at_ms, 2_000 + RECONNECT_MAX_MS);
    assert!(s.pending);
}

#[test]
fn health_poll_schedules_and_attempts() {
    let mut s = ReconnectState::idle(0);
    let plan = s.plan_health(true, false, true, 100);
    assert_eq!(plan, HealthPlan { clear_fault: false, release: false, attempt_reconnect: false });
    assert!(s.pending);
    assert_eq!(s.next_at_ms, 500);
    let plan = s.plan_health(true, false, true, 500);
    assert!(plan.attempt_reconnect);
    assert!(s.finish_reconnect(false, 500));
    assert_eq!(s.delay_ms, 800);
    assert!(!s.finish_reconnect(true, 1_300));
    assert_eq!(s, ReconnectState::idle(1_300));
}

#[test]
fn health_poll_on_fault_and_when_disabled() {
    let mut s = ReconnectState::idle(0);
    let plan = s.plan_health(true, true, false, 50);
    assert_eq!(plan, HealthPlan { clear_fault: true, release: true, attempt_reconnect: false });
    assert_eq!(s.next_at_ms, 450);
    let plan = s.plan_health(false, true, true, 60);
    assert_eq!(plan, HealthPlan { clear_fault: false, release: false, attempt_reconnect: false });
    assert_eq!(s, ReconnectState::idle(60));
    let mut t = ReconnectState::schedule_immediate(10, 400);
    assert!(!t.is_due(409));
    assert!(t.is_due(410));
    assert!(t.routing_switched(false, 20));
    assert!(!t.pending);
    assert!(!t.routing_switched(true, 30));
    assert_eq!(t.next_at_ms, 430);
}

#[test]
fn apply_config_plans() {
    assert_eq!(plan_apply_config(false, true, false), ApplyPlan::Release);
    assert_eq!(plan_apply_config(true, true, false), ApplyPlan::Restart);
    assert_eq!(plan_apply_config(true, false, true), ApplyPlan::Restart);
    assert_eq!(plan_apply_config(true, false, false), ApplyPlan::Reload);
}

#[test]
fn restart_retries_back_off_linearly() {
    assert_eq!(restart_retry_delay_ms(0), Some(50));
    assert_eq!(restart_retry_delay_ms(8), Some(450));
    assert_eq!(restart_retry_delay_ms(9), None);
}

#[test]
fn stream_format_choice() {
    let s = pick_stream_config(1, Some(256), 48_000, 2, 128);
    assert_eq!((s.channels, s.sample_rate, s.buffer_frames), (2, 48_000, 256));
    let s = pick_stream_config(8, None, 48_000, 2, 128);
    assert_eq!((s.channels, s.sample_rate, s.buffer_frames), (8, 48_000, 128));
    let s = pick_native_stream_config(2, 44_100, Some(64), 2, 128);
    assert_eq!((s.channels, s.sample_rate, s.buffer_frames), (2, 44_100, 128));
}

#[test]
fn backoff_closed_form() {
    for k in 0u32..12 {
        let mut s = ReconnectState::idle(0);
        s.schedule_fault(10);
        let mut now = 10u64;
        for step in 0..k {
            now = 100 + step as u64;
            s.backoff(now);
        }
        let expected = std::cmp::min(400u64 << k, 5000);
        assert_eq!(s.delay_ms, expected);
        assert!(s.pending);
        assert_eq!(s.next_at_ms, now + expected);
    }
}

#[test]
fn resample_only_when_rates_differ() {
    assert!(!input_needs_resampling(48_000, 48_000));
    assert!(input_needs_resampling(44_100, 48_000));
}
