//! Mix controls shared between the engine and its render callbacks: the headphone
//! monitor switch, its listen volume, and the level multipliers of the voice path.

use vstd::prelude::*;

use crate::config::{Gains, Monitor, UNITY_GAIN_BITS};

verus! {

/// Monitor switch, listen volume and gains read by the render callbacks.
#[derive(Debug)]
pub struct MixControls {
    monitor_enabled: bool,
    monitor_volume_bits: u32,
    gains: Gains,
}

impl MixControls {
    pub closed spec fn spec_monitor_enabled(&self) -> bool {
        self.monitor_enabled
    }

    /// The listen volume, as the bit pattern of its `f32` value.
    pub closed spec fn spec_monitor_volume(&self) -> u32 {
        self.monitor_volume_bits
    }

    /// The voice-path level multipliers.
    pub closed spec fn spec_gains(&self) -> Gains {
        self.gains
    }

    /// Controls for a monitor setting (its switch and its listen volume), with
    /// unity gains.
    pub fn from_monitor(monitor: &Monitor) -> (c: Self)
        ensures
            c.spec_monitor_enabled() == monitor.enabled,
            c.spec_monitor_volume() == monitor.volume_bits,
            c.spec_gains() == (Gains { voice_bits: UNITY_GAIN_BITS, master_bits: UNITY_GAIN_BITS }),
    {
        MixControls {
            monitor_enabled: monitor.enabled,
            monitor_volume_bits: monitor.volume_bits,
            gains: Gains { voice_bits: UNITY_GAIN_BITS, master_bits: UNITY_GAIN_BITS },
        }
    }

    /// Controls for the given gains and monitor switch, at unity listen volume.
    pub fn from_gains(gains: &Gains, monitor_enabled: bool) -> (c: Self)
        ensures
            c.spec_monitor_enabled() == monitor_enabled,
            c.spec_monitor_volume() == UNITY_GAIN_BITS,
            c.spec_gains() == *gains,
    {
        MixControls { monitor_enabled, monitor_volume_bits: UNITY_GAIN_BITS, gains: *gains }
    }

    /// Takes the switch and the listen volume of a monitor setting; the gains are kept.
    pub fn apply_monitor(&mut self, monitor: &Monitor)
        ensures
            final(self).spec_monitor_enabled() == monitor.enabled,
            final(self).spec_monitor_volume() == monitor.volume_bits,
            final(self).spec_gains() == old(self).spec_gains(),
    {
        self.monitor_enabled = monitor.enabled;
        self.monitor_volume_bits = monitor.volume_bits;
    }

    /// Takes new gains; the monitor switch and listen volume are kept.
    pub fn apply_gains(&mut self, gains: &Gains)
        ensures
            final(self).spec_gains() == *gains,
            final(self).spec_monitor_enabled() == old(self).spec_monitor_enabled(),
            final(self).spec_monitor_volume() == old(self).spec_monitor_volume(),
    {
        self.gains = *gains;
    }

    /// Flips the monitor switch and returns its new position.
    pub fn toggle_monitor(&mut self) -> (enabled: bool)
        ensures
            enabled == !old(self).spec_monitor_enabled(),
            final(self).spec_monitor_enabled() == enabled,
            final(self).spec_monitor_volume() == old(self).spec_monitor_volume(),
            final(self).spec_gains() == old(self).spec_gains(),
    {
        let prev = self.monitor_enabled;
        self.monitor_enabled = !prev;
        !prev
    }

    pub fn monitor_enabled(&self) -> (r: bool)
        ensures
            r == self.spec_monitor_enabled(),
    {
        self.monitor_enabled
    }

    /// Sets the monitor switch; the listen volume and gains are kept.
    pub fn set_monitor_enabled(&mut self, enabled: bool)
        ensures
            final(self).spec_monitor_enabled() == enabled,
            final(self).spec_monitor_volume() == old(self).spec_monitor_volume(),
            final(self).spec_gains() == old(self).spec_gains(),
    {
        self.monitor_enabled = enabled;
    }

    /// The listen volume, as the bit pattern of its `f32` value.
    pub fn monitor_volume(&self) -> (bits: u32)
        ensures
            bits == self.spec_monitor_volume(),
    {
        self.monitor_volume_bits
    }

    /// The voice-path level multipliers.
    pub fn gains(&self) -> (g: Gains)
        ensures
            g == self.spec_gains(),
    {
        self.gains
    }
}

/// Toggling the monitor twice (each step as `toggle_monitor` states it) restores
/// the switch, and neither step touches the listen volume or the gains.
pub proof fn law_toggle_twice_restores(c0: MixControls, c1: MixControls, c2: MixControls)
    requires
        c1.spec_monitor_enabled() == !c0.spec_monitor_enabled(),
        c1.spec_monitor_volume() == c0.spec_monitor_volume(),
        c1.spec_gains() == c0.spec_gains(),
        c2.spec_monitor_enabled() == !c1.spec_monitor_enabled(),
        c2.spec_monitor_volume() == c1.spec_monitor_volume(),
        c2.spec_gains() == c1.spec_gains(),
    ensures
        c2.spec_monitor_enabled() == c0.spec_monitor_enabled(),
        c2.spec_monitor_volume() == c0.spec_monitor_volume(),
        c2.spec_gains() == c0.spec_gains(),
{
}

} // verus!
