//! Live engine metrics shown in the settings window. Divisors (buffer capacity,
//! sample rate, buffer size) are kept at least 1 so the displayed ratios are defined.

use vstd::prelude::*;

use crate::config::Config;
use crate::i18n::UiText;

verus! {

/// Counters published by the audio engine.
pub struct AudioMetrics {
    voice_buffer_samples: usize,
    voice_buffer_capacity: usize,
    streams_active: usize,
    sample_rate: u32,
    buffer_frames: u32,
    routing_live: bool,
    reconnect_pending: bool,
}

/// The routing state shown in the settings header.
#[derive(Debug, Clone, Copy, PartialEq, Eq, Structural)]
pub enum RoutingStatus {
    /// Streams run and routing is on.
    Active,
    /// Not live, with a reconnect scheduled.
    Reconnecting,
    /// Neither.
    Off,
}

/// The header state: active when routing is live, else reconnecting when a
/// reconnect is pending, else off.
pub open spec fn routing_status_spec(routing_live: bool, reconnect_pending: bool) -> RoutingStatus {
    if routing_live {
        RoutingStatus::Active
    } else if reconnect_pending {
        RoutingStatus::Reconnecting
    } else {
        RoutingStatus::Off
    }
}

/// The header state for the given flags (see [`routing_status_spec`]).
pub fn routing_status(routing_live: bool, reconnect_pending: bool) -> (s: RoutingStatus)
    ensures
        s == routing_status_spec(routing_live, reconnect_pending),
{
    if routing_live {
        RoutingStatus::Active
    } else if reconnect_pending {
        RoutingStatus::Reconnecting
    } else {
        RoutingStatus::Off
    }
}

impl RoutingStatus {
    /// The header text for this state in a string table.
    pub fn label(self, texts: &UiText) -> (r: &'static str)
        ensures
            r == match self {
                RoutingStatus::Active => texts.status_active,
                RoutingStatus::Reconnecting => texts.status_reconnecting,
                RoutingStatus::Off => texts.status_inactive,
            },
    {
        match self {
            RoutingStatus::Active => texts.status_active,
            RoutingStatus::Reconnecting => texts.status_reconnecting,
            RoutingStatus::Off => texts.status_inactive,
        }
    }
}

/// `x`, or 1 when `x` is 0.
pub open spec fn at_least_one(x: int) -> int {
    if x < 1 {
        1
    } else {
        x
    }
}

impl AudioMetrics {
    #[verifier::type_invariant]
    spec fn divisors_positive(&self) -> bool {
        &&& self.voice_buffer_capacity >= 1
        &&& self.sample_rate >= 1
        &&& self.buffer_frames >= 1
    }

    pub closed spec fn spec_voice_buffer_samples(&self) -> usize {
        self.voice_buffer_samples
    }

    pub closed spec fn spec_voice_buffer_capacity(&self) -> usize {
        self.voice_buffer_capacity
    }

    pub closed spec fn spec_streams_active(&self) -> usize {
        self.streams_active
    }

    pub closed spec fn spec_sample_rate(&self) -> u32 {
        self.sample_rate
    }

    pub closed spec fn spec_buffer_frames(&self) -> u32 {
        self.buffer_frames
    }

    pub closed spec fn spec_routing_live(&self) -> bool {
        self.routing_live
    }

    pub closed spec fn spec_reconnect_pending(&self) -> bool {
        self.reconnect_pending
    }

    /// Metrics before the engine reports: empty buffer of capacity 1, no streams,
    /// 48 kHz, 128 frames, routing not live, no reconnect pending.
    pub fn new() -> (m: Self)
        ensures
            m.spec_voice_buffer_samples() == 0,
            m.spec_voice_buffer_capacity() == 1,
            m.spec_streams_active() == 0,
            m.spec_sample_rate() == 48_000,
            m.spec_buffer_frames() == 128,
            !m.spec_routing_live(),
            !m.spec_reconnect_pending(),
    {
        AudioMetrics {
            voice_buffer_samples: 0,
            voice_buffer_capacity: 1,
            streams_active: 0,
            sample_rate: 48_000,
            buffer_frames: 128,
            routing_live: false,
            reconnect_pending: false,
        }
    }

    /// Records the voice buffer fill; a zero capacity is recorded as 1.
    pub fn set_voice_buffer(&mut self, samples: usize, capacity: usize)
        ensures
            final(self).spec_voice_buffer_samples() == samples,
            final(self).spec_voice_buffer_capacity() == at_least_one(capacity as int),
            final(self).spec_streams_active() == old(self).spec_streams_active(),
            final(self).spec_sample_rate() == old(self).spec_sample_rate(),
            final(self).spec_buffer_frames() == old(self).spec_buffer_frames(),
            final(self).spec_routing_live() == old(self).spec_routing_live(),
            final(self).spec_reconnect_pending() == old(self).spec_reconnect_pending(),
    {
        proof {
            use_type_invariant(&*self);
        }
        self.voice_buffer_samples = samples;
        self.voice_buffer_capacity = if capacity < 1 {
            1
        } else {
            capacity
        };
    }

    /// Records the number of running streams.
    pub fn set_streams(&mut self, count: usize)
        ensures
            final(self).spec_streams_active() == count,
            final(self).spec_voice_buffer_samples() == old(self).spec_voice_buffer_samples(),
            final(self).spec_voice_buffer_capacity() == old(self).spec_voice_buffer_capacity(),
            final(self).spec_sample_rate() == old(self).spec_sample_rate(),
            final(self).spec_buffer_frames() == old(self).spec_buffer_frames(),
            final(self).spec_routing_live() == old(self).spec_routing_live(),
            final(self).spec_reconnect_pending() == old(self).spec_reconnect_pending(),
    {
        proof {
            use_type_invariant(&*self);
        }
        self.streams_active = count;
    }

    /// Records the stream format; zeros are recorded as 1.
    pub fn set_config(&mut self, sample_rate: u32, buffer_frames: u32)
        ensures
            final(self).spec_sample_rate() == at_least_one(sample_rate as int),
            final(self).spec_buffer_frames() == at_least_one(buffer_frames as int),
            final(self).spec_voice_buffer_samples() == old(self).spec_voice_buffer_samples(),
            final(self).spec_voice_buffer_capacity() == old(self).spec_voice_buffer_capacity(),
            final(self).spec_streams_active() == old(self).spec_streams_active(),
            final(self).spec_routing_live() == old(self).spec_routing_live(),
            final(self).spec_reconnect_pending() == old(self).spec_reconnect_pending(),
    {
        proof {
            use_type_invariant(&*self);
        }
        self.sample_rate = if sample_rate < 1 {
            1
        } else {
            sample_rate
        };
        self.buffer_frames = if buffer_frames < 1 {
            1
        } else {
            buffer_frames
        };
    }

    /// Records whether audio is flowing.
    pub fn set_routing_live(&mut self, live: bool)
        ensures
            final(self).spec_routing_live() == live,
            final(self).spec_voice_buffer_samples() == old(self).spec_voice_buffer_samples(),
            final(self).spec_voice_buffer_capacity() == old(self).spec_voice_buffer_capacity(),
            final(self).spec_streams_active() == old(self).spec_streams_active(),
            final(self).spec_sample_rate() == old(self).spec_sample_rate(),
            final(self).spec_buffer_frames() == old(self).spec_buffer_frames(),
            final(self).spec_reconnect_pending() == old(self).spec_reconnect_pending(),
    {
        proof {
            use_type_invariant(&*self);
        }
        self.routing_live = live;
    }

    /// Records whether a reconnect is scheduled.
    pub fn set_reconnect_pending(&mut self, pending: bool)
        ensures
            final(self).spec_reconnect_pending() == pending,
            final(self).spec_voice_buffer_samples() == old(self).spec_voice_buffer_samples(),
            final(self).spec_voice_buffer_capacity() == old(self).spec_voice_buffer_capacity(),
            final(self).spec_streams_active() == old(self).spec_streams_active(),
            final(self).spec_sample_rate() == old(self).spec_sample_rate(),
            final(self).spec_buffer_frames() == old(self).spec_buffer_frames(),
            final(self).spec_routing_live() == old(self).spec_routing_live(),
    {
        proof {
            use_type_invariant(&*self);
        }
        self.reconnect_pending = pending;
    }

    /// Publishes the engine's state: the voice buffer fill against its capacity, the
    /// stream count, the configured format, routing live when enabled with streams
    /// running, and the reconnect flag.
    pub fn sync_engine(
        &mut self,
        voice_available: usize,
        voice_capacity: usize,
        streams: usize,
        config: &Config,
        reconnect_pending: bool,
    )
        ensures
            final(self).spec_voice_buffer_samples() == voice_available,
            final(self).spec_voice_buffer_capacity() == at_least_one(voice_capacity as int),
            final(self).spec_streams_active() == streams,
            final(self).spec_sample_rate() == at_least_one(config.sample_rate as int),
            final(self).spec_buffer_frames() == at_least_one(config.buffer_frames as int),
            final(self).spec_routing_live() == (config.enabled && streams > 0),
            final(self).spec_reconnect_pending() == reconnect_pending,
    {
        self.set_voice_buffer(voice_available, voice_capacity);
        self.set_streams(streams);
        self.set_config(config.sample_rate, config.buffer_frames);
        self.set_routing_live(config.enabled && streams > 0);
        self.set_reconnect_pending(reconnect_pending);
    }

    pub fn voice_buffer_samples(&self) -> (r: usize)
        ensures
            r == self.spec_voice_buffer_samples(),
    {
        self.voice_buffer_samples
    }

    /// Voice buffer capacity, never 0.
    pub fn voice_buffer_capacity(&self) -> (r: usize)
        ensures
            r == self.spec_voice_buffer_capacity(),
            r >= 1,
    {
        proof {
            use_type_invariant(self);
        }
        self.voice_buffer_capacity
    }

    pub fn streams_active(&self) -> (r: usize)
        ensures
            r == self.spec_streams_active(),
    {
        self.streams_active
    }

    /// Sample rate, never 0.
    pub fn sample_rate(&self) -> (r: u32)
        ensures
            r == self.spec_sample_rate(),
            r >= 1,
    {
        proof {
            use_type_invariant(self);
        }
        self.sample_rate
    }

    /// Buffer size in frames, never 0.
    pub fn buffer_frames(&self) -> (r: u32)
        ensures
            r == self.spec_buffer_frames(),
            r >= 1,
    {
        proof {
            use_type_invariant(self);
        }
        self.buffer_frames
    }

    pub fn routing_live(&self) -> (r: bool)
        ensures
            r == self.spec_routing_live(),
    {
        self.routing_live
    }

    pub fn reconnect_pending(&self) -> (r: bool)
        ensures
            r == self.spec_reconnect_pending(),
    {
        self.reconnect_pending
    }

    /// The header state for the recorded flags (see [`routing_status_spec`]).
    pub fn status(&self) -> (s: RoutingStatus)
        ensures
            s == routing_status_spec(self.spec_routing_live(), self.spec_reconnect_pending()),
    {
        routing_status(self.routing_live, self.reconnect_pending)
    }
}

/// The header shows Active exactly when routing is live, whatever the reconnect
/// flag; Reconnecting exactly when routing is not live and a reconnect is pending;
/// and Off exactly when neither holds.
pub proof fn law_routing_status(routing_live: bool, reconnect_pending: bool)
    ensures
        (routing_status_spec(routing_live, reconnect_pending) == RoutingStatus::Active)
            <==> routing_live,
        (routing_status_spec(routing_live, reconnect_pending) == RoutingStatus::Reconnecting)
            <==> (!routing_live && reconnect_pending),
        (routing_status_spec(routing_live, reconnect_pending) == RoutingStatus::Off)
            <==> (!routing_live && !reconnect_pending),
{
}

} // verus!
