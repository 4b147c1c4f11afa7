//! Decisions of the audio engine: reconnect scheduling with backoff, what a
//! health poll does, how a new configuration is applied, restart retries, and
//! the stream format requested from a device. The engine around these owns the
//! device streams and the clock; it performs each returned action and reports
//! back. Times are milliseconds on the engine's monotonic clock.

use vstd::prelude::*;

use crate::config::Config;
use vstd::arithmetic::power2::{lemma_pow2_unfold, pow2};

verus! {

/// Capacity of each ring buffer, in samples (4096 stereo frames).
pub const RING_CAPACITY_SAMPLES: usize = 8192;

/// First reconnect delay after a fault.
pub const RECONNECT_INITIAL_MS: u64 = 400;

/// Longest reconnect delay.
pub const RECONNECT_MAX_MS: u64 = 5000;

/// Pause after releasing streams, so the device settles.
pub const RELEASE_SETTLE_MS: u64 = 300;

/// Stream rebuild attempts before falling back to the previous configuration.
pub const RESTART_ATTEMPTS: u32 = 10;

/// Commands from the application to the audio thread.
pub enum AudioCommand {
    ToggleMonitor,
    ReloadConfig(Box<Config>),
    RestartWithConfig(Box<Config>),
    SetRoutingEnabled(bool),
    Shutdown,
}

/// When the engine next tries to (re)open its streams.
#[derive(Debug, Clone, Copy, PartialEq, Eq, Structural)]
pub struct ReconnectState {
    /// A reconnect is scheduled.
    pub pending: bool,
    /// Time at which it becomes due.
    pub next_at_ms: u64,
    /// Current delay between attempts.
    pub delay_ms: u64,
}

/// The reconnect delay after one more failed attempt: doubled, at most the maximum.
pub open spec fn backoff_delay(delay_ms: int) -> int {
    if 2 * delay_ms < RECONNECT_MAX_MS {
        2 * delay_ms
    } else {
        RECONNECT_MAX_MS as int
    }
}

/// What a health poll asks of the engine.
#[derive(Debug, Clone, Copy, PartialEq, Eq, Structural)]
pub struct HealthPlan {
    /// Reset the stream-fault flag (the fault has been handled).
    pub clear_fault: bool,
    /// Pause and drop the running streams.
    pub release: bool,
    /// Clear the ring buffers and try to open the streams now.
    pub attempt_reconnect: bool,
}

/// How a new configuration reaches the streams.
#[derive(Debug, Clone, Copy, PartialEq, Eq, Structural)]
pub enum ApplyPlan {
    /// Routing is off: drop the streams.
    Release,
    /// Rebuild the streams with the new configuration.
    Restart,
    /// Keep the streams; the new gains and monitor switch apply to them.
    Reload,
}

/// The stream format requested from a device.
#[derive(Debug, Clone, Copy, PartialEq, Eq, Structural)]
pub struct StreamSettings {
    pub channels: u16,
    pub sample_rate: u32,
    pub buffer_frames: u32,
}

impl ReconnectState {
    /// Nothing scheduled; the next fault starts from the initial delay.
    pub fn idle(now_ms: u64) -> (s: Self)
        ensures
            s == (ReconnectState {
                pending: false,
                next_at_ms: now_ms,
                delay_ms: RECONNECT_INITIAL_MS,
            }),
    {
        ReconnectState { pending: false, next_at_ms: now_ms, delay_ms: RECONNECT_INITIAL_MS }
    }

    /// A reconnect due `delay_ms` from now.
    pub fn schedule_immediate(now_ms: u64, delay_ms: u64) -> (s: Self)
        requires
            now_ms + delay_ms <= u64::MAX,
        ensures
            s == (ReconnectState { pending: true, next_at_ms: (now_ms + delay_ms) as u64, delay_ms }),
    {
        ReconnectState { pending: true, next_at_ms: now_ms + delay_ms, delay_ms }
    }

    /// After a device fault: a reconnect due after the initial delay.
    pub fn schedule_fault(&mut self, now_ms: u64)
        requires
            now_ms + RECONNECT_INITIAL_MS <= u64::MAX,
        ensures
            *final(self) == (ReconnectState {
                pending: true,
                next_at_ms: (now_ms + RECONNECT_INITIAL_MS) as u64,
                delay_ms: RECONNECT_INITIAL_MS,
            }),
            final(self).delay_ms == delay_after_failures(0),
    {
        proof {
            lemma_delay_after_failures_zero();
        }
        self.pending = true;
        self.delay_ms = RECONNECT_INITIAL_MS;
        self.next_at_ms = now_ms + self.delay_ms;
    }

    /// After a failed attempt: the delay doubles, up to the maximum, and the next
    /// attempt is due that long from now.
    pub fn backoff(&mut self, now_ms: u64)
        requires
            2 * old(self).delay_ms <= u64::MAX,
            now_ms + backoff_delay(old(self).delay_ms as int) <= u64::MAX,
        ensures
            final(self).delay_ms == backoff_delay(old(self).delay_ms as int),
            final(self).next_at_ms == now_ms + final(self).delay_ms,
            final(self).pending == old(self).pending,
            forall|k: nat|
                old(self).delay_ms == #[trigger] delay_after_failures(k)
                    ==> final(self).delay_ms == delay_after_failures(k + 1),
    {
        proof {
            assert forall|k: nat|
                old(self).delay_ms == #[trigger] delay_after_failures(k) implies backoff_delay(
                    old(self).delay_ms as int,
                ) == delay_after_failures(k + 1) by {
                lemma_delay_after_failures_step(k);
            }
        }
        let doubled = self.delay_ms * 2;
        self.delay_ms = if doubled < RECONNECT_MAX_MS {
            doubled
        } else {
            RECONNECT_MAX_MS
        };
        self.next_at_ms = now_ms + self.delay_ms;
    }

    /// Is a scheduled reconnect due?
    pub fn is_due(&self, now_ms: u64) -> (r: bool)
        ensures
            r == (self.pending && now_ms >= self.next_at_ms),
    {
        self.pending && now_ms >= self.next_at_ms
    }

    /// One health poll. With routing off nothing is scheduled. Otherwise a device
    /// fault releases the streams and schedules a reconnect; so does finding no
    /// streams with nothing scheduled; and a due reconnect is attempted.
    pub fn plan_health(&mut self, enabled: bool, fault: bool, streams_empty: bool, now_ms: u64) -> (plan:
        HealthPlan)
        requires
            now_ms + RECONNECT_INITIAL_MS <= u64::MAX,
        ensures
            !enabled ==> *final(self) == Self::idle_spec(now_ms) && plan == (HealthPlan {
                clear_fault: false,
                release: false,
                attempt_reconnect: false,
            }),
            enabled ==> {
                let rescheduled = fault || (streams_empty && !old(self).pending);
                &&& rescheduled ==> *final(self) == Self::fault_spec(now_ms)
                &&& !rescheduled ==> *final(self) == *old(self)
                &&& plan.clear_fault == fault
                &&& plan.release == fault
                &&& plan.attempt_reconnect == (final(self).pending && now_ms
                    >= final(self).next_at_ms)
            },
    {
        if !enabled {
            *self = Self::idle(now_ms);
            return HealthPlan { clear_fault: false, release: false, attempt_reconnect: false };
        }
        if fault {
            self.schedule_fault(now_ms);
        } else if streams_empty && !self.pending {
            self.schedule_fault(now_ms);
        }
        let attempt = self.is_due(now_ms);
        HealthPlan { clear_fault: fault, release: fault, attempt_reconnect: attempt }
    }

    /// Outcome of a reconnect attempt: success clears the schedule; failure asks for
    /// the streams to be released (the returned flag) and backs off.
    pub fn finish_reconnect(&mut self, opened: bool, now_ms: u64) -> (release: bool)
        requires
            2 * old(self).delay_ms <= u64::MAX,
            now_ms + backoff_delay(old(self).delay_ms as int) <= u64::MAX,
        ensures
            release == !opened,
            opened ==> *final(self) == Self::idle_spec(now_ms),
            !opened ==> final(self).delay_ms == backoff_delay(old(self).delay_ms as int)
                && final(self).next_at_ms == now_ms + final(self).delay_ms && final(self).pending
                == old(self).pending,
    {
        if opened {
            *self = Self::idle(now_ms);
            false
        } else {
            self.backoff(now_ms);
            true
        }
    }

    /// Routing switched on schedules a connect; switched off clears the schedule and
    /// asks for the streams to be released (the returned flag).
    pub fn routing_switched(&mut self, enabled: bool, now_ms: u64) -> (release: bool)
        requires
            now_ms + RECONNECT_INITIAL_MS <= u64::MAX,
        ensures
            release == !enabled,
            enabled ==> *final(self) == Self::fault_spec(now_ms),
            !enabled ==> *final(self) == Self::idle_spec(now_ms),
    {
        if enabled {
            self.schedule_fault(now_ms);
            false
        } else {
            *self = Self::idle(now_ms);
            true
        }
    }

    /// The idle state at `now_ms`.
    pub open spec fn idle_spec(now_ms: u64) -> Self {
        ReconnectState { pending: false, next_at_ms: now_ms, delay_ms: RECONNECT_INITIAL_MS }
    }

    /// The state right after a fault at `now_ms`.
    pub open spec fn fault_spec(now_ms: u64) -> Self {
        ReconnectState {
            pending: true,
            next_at_ms: (now_ms + RECONNECT_INITIAL_MS) as u64,
            delay_ms: RECONNECT_INITIAL_MS,
        }
    }
}

/// A new configuration with routing off releases the streams; otherwise the
/// streams are rebuilt when asked to or when none are running, and kept otherwise.
pub fn plan_apply_config(enabled: bool, restart_requested: bool, streams_empty: bool) -> (plan:
    ApplyPlan)
    ensures
        plan == (if !enabled {
            ApplyPlan::Release
        } else if restart_requested || streams_empty {
            ApplyPlan::Restart
        } else {
            ApplyPlan::Reload
        }),
{
    if !enabled {
        ApplyPlan::Release
    } else if restart_requested || streams_empty {
        ApplyPlan::Restart
    } else {
        ApplyPlan::Reload
    }
}

/// After attempt number `attempt` (from 0) of a stream rebuild failed: the pause
/// before the next attempt, 50 ms times the attempts made, or `None` when the
/// attempts are used up and the previous configuration is to be restored.
pub fn restart_retry_delay_ms(attempt: u32) -> (delay: Option<u64>)
    ensures
        attempt + 1 < RESTART_ATTEMPTS ==> delay == Some((50 * (attempt + 1)) as u64),
        attempt + 1 >= RESTART_ATTEMPTS ==> delay is None,
{
    if attempt < RESTART_ATTEMPTS - 1 {
        Some(50 * (attempt as u64 + 1))
    } else {
        None
    }
}

/// Input captured at `stream_rate` is resampled exactly when it differs from the
/// engine's `master_rate`.
pub fn input_needs_resampling(stream_rate: u32, master_rate: u32) -> (r: bool)
    ensures
        r == (stream_rate != master_rate),
{
    stream_rate != master_rate
}

/// The format requested from a device whose default format has `default_channels`
/// and whose smallest buffer, when it reports one, is `min_buffer_frames`: at least
/// the target channel count, the target rate, and the requested buffer size raised
/// to the device's minimum.
pub fn pick_stream_config(
    default_channels: u16,
    min_buffer_frames: Option<u32>,
    target_rate: u32,
    target_channels: u16,
    buffer_frames: u32,
) -> (s: StreamSettings)
    ensures
        s.channels == vstd::math::max(target_channels as int, default_channels as int),
        s.sample_rate == target_rate,
        s.buffer_frames == match min_buffer_frames {
            Some(min) => vstd::math::max(buffer_frames as int, min as int),
            None => buffer_frames as int,
        },
{
    pick_native_stream_config(default_channels, target_rate, min_buffer_frames, target_channels, buffer_frames)
}

/// Like [`pick_stream_config`], but keeping the device's default rate
/// `default_rate` (the input path then resamples).
pub fn pick_native_stream_config(
    default_channels: u16,
    default_rate: u32,
    min_buffer_frames: Option<u32>,
    target_channels: u16,
    buffer_frames: u32,
) -> (s: StreamSettings)
    ensures
        s.channels == vstd::math::max(target_channels as int, default_channels as int),
        s.sample_rate == default_rate,
        s.buffer_frames == match min_buffer_frames {
            Some(min) => vstd::math::max(buffer_frames as int, min as int),
            None => buffer_frames as int,
        },
{
    let channels = if target_channels < default_channels {
        default_channels
    } else {
        target_channels
    };
    let frames = match min_buffer_frames {
        Some(min) => if buffer_frames < min {
            min
        } else {
            buffer_frames
        },
        None => buffer_frames,
    };
    StreamSettings { channels, sample_rate: default_rate, buffer_frames: frames }
}

/// Reconnect delays stay between the initial and the maximum delay, never shrink
/// while attempts keep failing, and stop growing at the maximum.
pub proof fn law_backoff_bounded(delay_ms: int)
    requires
        RECONNECT_INITIAL_MS <= delay_ms <= RECONNECT_MAX_MS,
    ensures
        RECONNECT_INITIAL_MS <= backoff_delay(delay_ms) <= RECONNECT_MAX_MS,
        delay_ms <= backoff_delay(delay_ms),
        delay_ms == RECONNECT_MAX_MS ==> backoff_delay(delay_ms) == RECONNECT_MAX_MS,
{
}

/// The reconnect delay after `k` failed attempts that follow a fault: the initial
/// delay doubled `k` times, at most the maximum (400, 800, 1600, 3200, 5000, 5000, ...).
pub open spec fn delay_after_failures(k: nat) -> int {
    vstd::math::min(RECONNECT_INITIAL_MS * pow2(k), RECONNECT_MAX_MS as int)
}

proof fn lemma_delay_after_failures_zero()
    ensures
        delay_after_failures(0) == RECONNECT_INITIAL_MS,
{
    vstd::arithmetic::power2::lemma2_to64();
}

proof fn lemma_delay_after_failures_step(k: nat)
    ensures
        delay_after_failures(k + 1) == backoff_delay(delay_after_failures(k)),
{
    lemma_pow2_unfold(k + 1);
    assert((k + 1) as nat - 1 == k);
}

proof fn lemma_backoff_states(states: Seq<ReconnectState>, times: Seq<u64>, k: int)
    requires
        0 <= k < states.len(),
        times.len() == states.len(),
        times[0] + RECONNECT_INITIAL_MS <= u64::MAX,
        states[0] == ReconnectState::fault_spec(times[0]),
        forall|i: int|
            0 <= i < states.len() - 1 ==> {
                &&& (#[trigger] states[i + 1]).delay_ms == backoff_delay(states[i].delay_ms as int)
                &&& states[i + 1].next_at_ms == times[i + 1] + states[i + 1].delay_ms
                &&& states[i + 1].pending == states[i].pending
            },
    ensures
        states[k].delay_ms == delay_after_failures(k as nat),
        states[k].pending,
        states[k].next_at_ms == times[k] + states[k].delay_ms,
    decreases k,
{
    if k == 0 {
        assert(pow2(0) == 1) by {
            vstd::arithmetic::power2::lemma2_to64();
        }
    } else {
        lemma_backoff_states(states, times, k - 1);
        lemma_delay_after_failures_step((k - 1) as nat);
        assert(states[(k - 1) + 1].delay_ms == backoff_delay(states[k - 1].delay_ms as int));
    }
}

/// Reconnect backoff in closed form: after a fault schedules a reconnect (as
/// `schedule_fault` states it) and `k` attempts then fail, each followed by
/// `backoff` (as it states it) at the times in `times`, the delay is
/// min(400 * 2^k, 5000) ms, a reconnect stays scheduled, it is due that long after
/// the last call, and the delay never leaves [400, 5000].
pub proof fn law_backoff_closed_form(states: Seq<ReconnectState>, times: Seq<u64>)
    requires
        states.len() >= 1,
        times.len() == states.len(),
        times[0] + RECONNECT_INITIAL_MS <= u64::MAX,
        states[0] == ReconnectState::fault_spec(times[0]),
        forall|i: int|
            0 <= i < states.len() - 1 ==> {
                &&& (#[trigger] states[i + 1]).delay_ms == backoff_delay(states[i].delay_ms as int)
                &&& states[i + 1].next_at_ms == times[i + 1] + states[i + 1].delay_ms
                &&& states[i + 1].pending == states[i].pending
            },
    ensures
        forall|k: int|
            0 <= k < states.len() ==> {
                &&& (#[trigger] states[k]).delay_ms == delay_after_failures(k as nat)
                &&& states[k].pending
                &&& states[k].next_at_ms == times[k] + states[k].delay_ms
                &&& RECONNECT_INITIAL_MS <= states[k].delay_ms <= RECONNECT_MAX_MS
            },
{
    assert forall|k: int| 0 <= k < states.len() implies {
        &&& (#[trigger] states[k]).delay_ms == delay_after_failures(k as nat)
        &&& states[k].pending
        &&& states[k].next_at_ms == times[k] + states[k].delay_ms
        &&& RECONNECT_INITIAL_MS <= states[k].delay_ms <= RECONNECT_MAX_MS
    } by {
        lemma_backoff_states(states, times, k);
        vstd::arithmetic::power2::lemma_pow2_pos(k as nat);
    }
}

} // verus!
