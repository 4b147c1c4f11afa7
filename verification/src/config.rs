//! Router configuration: its fields, defaults, validity rule, and which changes
//! need the audio streams rebuilt.

use vstd::prelude::*;

use crate::error::{error_message, Error, Result};
use crate::i18n::Locale;

verus! {

broadcast use vstd::string::group_string_axioms;

/// Bit pattern of the `f32` value `1.0`, the unity level.
pub const UNITY_GAIN_BITS: u32 = 0x3F80_0000;

/// The whole router configuration.
pub struct Config {
    /// UI language.
    pub locale: Locale,
    /// Sample rate of every stream, in Hz.
    pub sample_rate: u32,
    /// Requested device buffer size, in frames.
    pub buffer_frames: u32,
    /// Endpoint queries.
    pub devices: DeviceNames,
    /// Level multipliers of the voice path.
    pub gains: Gains,
    /// Headphone monitor bus and its listen volume.
    pub monitor: Monitor,
    /// Whether routing runs.
    pub enabled: bool,
}

/// Case-insensitive substring queries that pick the three endpoints.
pub struct DeviceNames {
    /// Capture endpoint (the processed microphone).
    pub voice_input: String,
    /// Playback endpoint that feeds the virtual microphone.
    pub virtual_mic_output: String,
    /// Playback endpoint of the headphone monitor.
    pub monitor_output: String,
}

/// Level multipliers, each kept as the IEEE-754 bit pattern of an `f32`; the
/// library stores and compares them and never does arithmetic on them.
#[derive(Debug, Clone, Copy, PartialEq, Eq, Structural)]
pub struct Gains {
    pub voice_bits: u32,
    pub master_bits: u32,
}

/// Headphone monitor settings.
#[derive(Debug, Clone, Copy, PartialEq, Eq, Structural)]
pub struct Monitor {
    /// The monitor bus plays the voice in the headphones.
    pub enabled: bool,
    /// Listen volume, the `f32` level of the monitor bus, as its bit pattern.
    pub volume_bits: u32,
}

/// The three endpoint queries as text.
pub open spec fn device_names_view(d: DeviceNames) -> (Seq<char>, Seq<char>, Seq<char>) {
    (d.voice_input@, d.virtual_mic_output@, d.monitor_output@)
}

/// Why a configuration is refused, if it is: the first failing check among a zero
/// sample rate, a zero buffer size, an empty capture query and an empty
/// virtual-mic query.
pub open spec fn config_problem(c: Config) -> Option<Seq<char>> {
    if c.sample_rate == 0 {
        Some("sample_rate must be > 0"@)
    } else if c.buffer_frames == 0 {
        Some("buffer_frames must be > 0"@)
    } else if c.devices.voice_input@.len() == 0 {
        Some("devices.voice_input is required"@)
    } else if c.devices.virtual_mic_output@.len() == 0 {
        Some("devices.virtual_mic_output is required"@)
    } else {
        None
    }
}

/// Going from `a` to `b` needs the streams rebuilt: a different endpoint query,
/// sample rate, buffer size or monitor switch. The listen volume, gains, locale and
/// the routing switch are applied to running streams.
pub open spec fn restart_needed(a: Config, b: Config) -> bool {
    ||| device_names_view(a.devices) != device_names_view(b.devices)
    ||| a.sample_rate != b.sample_rate
    ||| a.buffer_frames != b.buffer_frames
    ||| a.monitor.enabled != b.monitor.enabled
}

/// The configuration written on first run for the given locale and endpoint queries.
pub open spec fn default_config_spec(
    locale: Locale,
    voice_input: Seq<char>,
    virtual_mic_output: Seq<char>,
    monitor_output: Seq<char>,
    c: Config,
) -> bool {
    &&& c.locale == locale
    &&& c.sample_rate == 48_000
    &&& c.buffer_frames == 128
    &&& device_names_view(c.devices) == (voice_input, virtual_mic_output, monitor_output)
    &&& c.gains == Gains { voice_bits: UNITY_GAIN_BITS, master_bits: UNITY_GAIN_BITS }
    &&& c.monitor == Monitor { enabled: false, volume_bits: UNITY_GAIN_BITS }
    &&& c.enabled
}

impl Clone for DeviceNames {
    fn clone(&self) -> (r: Self)
        ensures
            r == *self,
    {
        DeviceNames {
            voice_input: self.voice_input.clone(),
            virtual_mic_output: self.virtual_mic_output.clone(),
            monitor_output: self.monitor_output.clone(),
        }
    }
}

impl Clone for Config {
    fn clone(&self) -> (r: Self)
        ensures
            r == *self,
    {
        Config {
            locale: self.locale,
            sample_rate: self.sample_rate,
            buffer_frames: self.buffer_frames,
            devices: self.devices.clone(),
            gains: self.gains,
            monitor: self.monitor,
            enabled: self.enabled,
        }
    }
}

impl Default for Gains {
    fn default() -> (g: Self)
        ensures
            g == (Gains { voice_bits: UNITY_GAIN_BITS, master_bits: UNITY_GAIN_BITS }),
    {
        Gains { voice_bits: UNITY_GAIN_BITS, master_bits: UNITY_GAIN_BITS }
    }
}

impl Default for Monitor {
    fn default() -> (m: Self)
        ensures
            m == (Monitor { enabled: false, volume_bits: UNITY_GAIN_BITS }),
    {
        Monitor { enabled: false, volume_bits: default_one() }
    }
}

/// Default sample rate, in Hz.
pub fn default_sample_rate() -> (r: u32)
    ensures
        r == 48_000,
{
    48_000
}

/// Default device buffer size, in frames.
pub fn default_buffer_frames() -> (r: u32)
    ensures
        r == 128,
{
    128
}

/// Default level (unity), as its bit pattern.
pub fn default_one() -> (r: u32)
    ensures
        r == UNITY_GAIN_BITS,
{
    UNITY_GAIN_BITS
}

/// Routing is on by default.
pub fn default_enabled() -> (r: bool)
    ensures
        r,
{
    true
}

impl DeviceNames {
    /// Do both hold the same three queries?
    pub fn same_as(&self, other: &Self) -> (r: bool)
        ensures
            r == (device_names_view(*self) == device_names_view(*other)),
    {
        self.voice_input == other.voice_input && self.virtual_mic_output
            == other.virtual_mic_output && self.monitor_output == other.monitor_output
    }
}

impl Config {
    /// The first-run configuration: the given locale and endpoint queries with the
    /// default rate, buffer size, unity gains, monitor off at unity volume and
    /// routing on.
    pub fn generate_default(
        locale: Locale,
        voice_input: String,
        virtual_mic_output: String,
        monitor_output: String,
    ) -> (c: Self)
        ensures
            default_config_spec(locale, voice_input@, virtual_mic_output@, monitor_output@, c),
    {
        Config {
            locale,
            sample_rate: default_sample_rate(),
            buffer_frames: default_buffer_frames(),
            devices: DeviceNames { voice_input, virtual_mic_output, monitor_output },
            gains: Gains::default(),
            monitor: Monitor::default(),
            enabled: default_enabled(),
        }
    }

    /// Checks the configuration before it is used or saved (see [`config_problem`]).
    pub fn validate(&self) -> (r: Result<()>)
        ensures
            match config_problem(*self) {
                None => r is Ok,
                Some(msg) => r matches Err(e) && e is Config && error_message(e) == msg,
            },
    {
        if self.sample_rate == 0 {
            return Err(Error::config("sample_rate must be > 0"));
        }
        if self.buffer_frames == 0 {
            return Err(Error::config("buffer_frames must be > 0"));
        }
        if self.devices.voice_input.as_str().is_empty() {
            return Err(Error::config("devices.voice_input is required"));
        }
        if self.devices.virtual_mic_output.as_str().is_empty() {
            return Err(Error::config("devices.virtual_mic_output is required"));
        }
        Ok(())
    }

    /// Does switching between `self` and `other` need the streams rebuilt?
    pub fn needs_stream_restart(&self, other: &Self) -> (r: bool)
        ensures
            r == restart_needed(*self, *other),
    {
        !self.devices.same_as(&other.devices) || self.sample_rate != other.sample_rate
            || self.buffer_frames != other.buffer_frames || self.monitor.enabled
            != other.monitor.enabled
    }
}

/// Stream restarts are symmetric, and a configuration never needs a restart to
/// switch to itself.
pub proof fn law_restart_symmetric_and_reflexive(a: Config, b: Config)
    ensures
        restart_needed(a, b) == restart_needed(b, a),
        !restart_needed(a, a),
{
}

/// Changing only the listen volume, gains, locale or the routing switch never
/// rebuilds the streams.
pub proof fn law_hot_reload_fields(a: Config, b: Config)
    requires
        device_names_view(a.devices) == device_names_view(b.devices),
        a.sample_rate == b.sample_rate,
        a.buffer_frames == b.buffer_frames,
        a.monitor.enabled == b.monitor.enabled,
    ensures
        !restart_needed(a, b),
{
}

/// A first-run configuration is accepted exactly when both the capture query and
/// the virtual-mic query are non-empty.
pub proof fn law_default_config_valid(
    locale: Locale,
    voice_input: Seq<char>,
    virtual_mic_output: Seq<char>,
    monitor_output: Seq<char>,
    c: Config,
)
    requires
        default_config_spec(locale, voice_input, virtual_mic_output, monitor_output, c),
    ensures
        config_problem(c) is None <==> (voice_input.len() > 0 && virtual_mic_output.len() > 0),
{
}

/// Changing any one endpoint query (capture, virtual mic or monitor) rebuilds the
/// streams, and so does changing the sample rate, the buffer size or the monitor
/// switch; the streams are rebuilt for no other change.
pub proof fn law_endpoint_change_restarts(a: Config, b: Config)
    ensures
        a.devices.voice_input@ != b.devices.voice_input@ ==> restart_needed(a, b),
        a.devices.virtual_mic_output@ != b.devices.virtual_mic_output@ ==> restart_needed(a, b),
        a.devices.monitor_output@ != b.devices.monitor_output@ ==> restart_needed(a, b),
        a.sample_rate != b.sample_rate ==> restart_needed(a, b),
        a.buffer_frames != b.buffer_frames ==> restart_needed(a, b),
        a.monitor.enabled != b.monitor.enabled ==> restart_needed(a, b),
        restart_needed(a, b) ==> (a.devices.voice_input@ != b.devices.voice_input@
            || a.devices.virtual_mic_output@ != b.devices.virtual_mic_output@
            || a.devices.monitor_output@ != b.devices.monitor_output@
            || a.sample_rate != b.sample_rate || a.buffer_frames != b.buffer_frames
            || a.monitor.enabled != b.monitor.enabled),
{
}

/// Any configuration with a positive sample rate, a positive buffer size and
/// non-empty capture and virtual-mic queries is accepted, whatever its other
/// fields; every other configuration is refused.
pub proof fn law_config_accepted(c: Config)
    ensures
        config_problem(c) is None <==> (c.sample_rate > 0 && c.buffer_frames > 0
            && c.devices.voice_input@.len() > 0 && c.devices.virtual_mic_output@.len() > 0),
{
}

} // verus!
