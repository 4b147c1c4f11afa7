//! The settings form: the last applied configuration, the edited draft, and the
//! status line, with the steps of Apply, Cancel and the routing switch. Saving
//! the file and sending events happen outside; their outcomes come back here.

use vstd::prelude::*;

use crate::config::{device_names_view, Config};
use crate::devices::{
    best_device_index, best_index, law_stable_query_idempotent, stable_device_query, stable_query,
    DeviceLists,
};
use crate::error::{error_label, error_message, Error};
use crate::i18n::UiText;
use crate::text::{chars_eq, chars_of, is_ascii_chars};

verus! {

broadcast use vstd::string::group_string_axioms;

/// Outcome of saving and sending an edited configuration.
pub enum ApplyOutcome {
    /// Saved and sent to the application.
    Applied,
    /// Saved, but the application did not take the event.
    SendFailed,
    /// Not saved.
    SaveFailed(Error),
}

/// State of the settings window.
pub struct SettingsForm {
    /// The configuration last applied.
    pub baseline: Config,
    /// The configuration being edited.
    pub draft: Config,
    /// Status line; empty when there is nothing to report.
    pub status: String,
    /// The status reports success.
    pub status_ok: bool,
    /// Strings of the window's locale.
    pub texts: UiText,
}

/// Picks the entry of `names` that a device picker shows for a saved query.
pub fn resolve_device_name(names: &[String], query: &str) -> (r: String)
    ensures
        resolved_name(names@, query@, r@),
{
    if names.len() == 0 {
        return query.to_string();
    }
    let i = best_device_index(names, query);
    let r = names[i].clone();
    assert(best_index(names@, query@, i) && i < names@.len() && r@ == names@[i as int]@);
    r
}

/// Does some entry of `names` equal `selected` exactly?
pub open spec fn lists_name(names: Seq<String>, selected: Seq<char>) -> bool {
    exists|j: int| 0 <= j < names.len() && #[trigger] names[j]@ == selected
}

/// The text a device picker shows for the saved query `selected`: the query itself
/// when it is one of the entries, else the entry it resolves to (as
/// `resolve_device_name` states it).
pub fn picker_display(names: &[String], selected: &str) -> (r: String)
    ensures
        lists_name(names@, selected@) ==> r@ == selected@,
        !lists_name(names@, selected@) ==> resolved_name(names@, selected@, r@),
{
    let target = chars_of(selected);
    let n = names.len();
    let mut i: usize = 0;
    while i < n
        invariant
            n == names@.len(),
            i <= n,
            target@ == selected@,
            forall|j: int| 0 <= j < i ==> #[trigger] names@[j]@ != selected@,
        decreases n - i,
    {
        let candidate = chars_of(names[i].as_str());
        if chars_eq(&candidate, &target) {
            return selected.to_string();
        }
        i = i + 1;
    }
    resolve_device_name(names, selected)
}

/// `r` is `config` with each endpoint query replaced by the picker entry it
/// resolves to (capture among `inputs`, virtual mic and monitor among `outputs`),
/// as `resolve_device_name` states it; every other field is unchanged.
pub open spec fn resolved_config(config: Config, inputs: Seq<String>, outputs: Seq<String>, r: Config) -> bool {
    &&& r.locale == config.locale
    &&& r.sample_rate == config.sample_rate
    &&& r.buffer_frames == config.buffer_frames
    &&& r.gains == config.gains
    &&& r.monitor == config.monitor
    &&& r.enabled == config.enabled
    &&& resolved_name(inputs, config.devices.voice_input@, r.devices.voice_input@)
    &&& resolved_name(outputs, config.devices.virtual_mic_output@, r.devices.virtual_mic_output@)
    &&& resolved_name(outputs, config.devices.monitor_output@, r.devices.monitor_output@)
}

/// `name` is what a picker over `names` shows for `query`: the query itself when
/// there are no names, else the name at the index `best_device_index` picks.
pub open spec fn resolved_name(names: Seq<String>, query: Seq<char>, name: Seq<char>) -> bool {
    if names.len() == 0 {
        name == query
    } else {
        exists|i: usize| #[trigger] best_index(names, query, i) && i < names.len() && name == names[i as int]@
    }
}

/// The configuration with each endpoint query replaced by the picker entry it
/// resolves to (see [`resolved_config`]).
pub fn normalize_draft_devices(config: Config, devices: &DeviceLists) -> (r: Config)
    ensures
        resolved_config(config, devices.inputs@, devices.outputs@, r),
{
    let mut draft = config;
    draft.devices.voice_input = resolve_device_name(devices.inputs.as_slice(), draft.devices.voice_input.as_str());
    draft.devices.virtual_mic_output = resolve_device_name(
        devices.outputs.as_slice(),
        draft.devices.virtual_mic_output.as_str(),
    );
    draft.devices.monitor_output = resolve_device_name(
        devices.outputs.as_slice(),
        draft.devices.monitor_output.as_str(),
    );
    draft
}

/// Replaces each endpoint query by its stable form (see [`stable_query`]).
pub fn normalize_config_devices(config: &mut Config)
    ensures
        device_names_view(final(config).devices) == (
            stable_query(old(config).devices.voice_input@),
            stable_query(old(config).devices.virtual_mic_output@),
            stable_query(old(config).devices.monitor_output@),
        ),
        final(config).locale == old(config).locale,
        final(config).sample_rate == old(config).sample_rate,
        final(config).buffer_frames == old(config).buffer_frames,
        final(config).gains == old(config).gains,
        final(config).monitor == old(config).monitor,
        final(config).enabled == old(config).enabled,
{
    config.devices.voice_input = stable_device_query(config.devices.voice_input.as_str());
    config.devices.virtual_mic_output = stable_device_query(config.devices.virtual_mic_output.as_str());
    config.devices.monitor_output = stable_device_query(config.devices.monitor_output.as_str());
}

impl SettingsForm {
    /// A form for `config`, with its endpoint queries resolved against the device
    /// lists; the draft starts equal to the baseline and the status is empty.
    pub fn new(config: Config, devices: &DeviceLists, texts: UiText) -> (f: Self)
        ensures
            f.draft == f.baseline,
            f.status@.len() == 0,
            !f.status_ok,
            f.texts == texts,
            resolved_config(config, devices.inputs@, devices.outputs@, f.baseline),
    {
        let baseline = normalize_draft_devices(config, devices);
        let draft = baseline.clone();
        SettingsForm { baseline, draft, status: String::new(), status_ok: false, texts }
    }

    /// Cancel: the draft goes back to the last applied configuration and the status
    /// is cleared.
    pub fn cancel(&mut self)
        ensures
            final(self).draft == old(self).baseline,
            final(self).baseline == old(self).baseline,
            final(self).status@.len() == 0,
            !final(self).status_ok,
            final(self).texts == old(self).texts,
    {
        self.draft = self.baseline.clone();
        self.status = String::new();
        self.status_ok = false;
    }

    /// First step of Apply: the draft's endpoint queries take their stable form; the
    /// returned copy of the draft is what is saved and sent.
    pub fn begin_apply(&mut self) -> (to_save: Config)
        ensures
            to_save == final(self).draft,
            final(self).baseline == old(self).baseline,
            final(self).status == old(self).status,
            final(self).status_ok == old(self).status_ok,
            final(self).texts == old(self).texts,
            device_names_view(final(self).draft.devices) == (
                stable_query(old(self).draft.devices.voice_input@),
                stable_query(old(self).draft.devices.virtual_mic_output@),
                stable_query(old(self).draft.devices.monitor_output@),
            ),
            final(self).draft.sample_rate == old(self).draft.sample_rate,
            final(self).draft.buffer_frames == old(self).draft.buffer_frames,
            final(self).draft.gains == old(self).draft.gains,
            final(self).draft.monitor == old(self).draft.monitor,
            final(self).draft.enabled == old(self).draft.enabled,
            final(self).draft.locale == old(self).draft.locale,
    {
        normalize_config_devices(&mut self.draft);
        self.draft.clone()
    }

    /// Last step of Apply: once applied, the draft becomes the baseline and the
    /// status reports success; a failed send or save is reported and the baseline
    /// is kept.
    pub fn finish_apply(&mut self, outcome: ApplyOutcome)
        ensures
            final(self).draft == old(self).draft,
            final(self).texts == old(self).texts,
            match outcome {
                ApplyOutcome::Applied => final(self).baseline == old(self).draft
                    && final(self).status@ == old(self).texts.status_apply_ok@
                    && final(self).status_ok,
                ApplyOutcome::SendFailed => final(self).baseline == old(self).baseline
                    && final(self).status@ == old(self).texts.status_send_failed@
                    && !final(self).status_ok,
                ApplyOutcome::SaveFailed(e) => final(self).baseline == old(self).baseline
                    && final(self).status@ == error_label(e) + ": "@ + error_message(e)
                    && !final(self).status_ok,
            },
    {
        match outcome {
            ApplyOutcome::Applied => {
                self.baseline = self.draft.clone();
                self.status = self.texts.status_apply_ok.to_string();
                self.status_ok = true;
            },
            ApplyOutcome::SendFailed => {
                self.status = self.texts.status_send_failed.to_string();
                self.status_ok = false;
            },
            ApplyOutcome::SaveFailed(e) => {
                self.status = e.describe();
                self.status_ok = false;
            },
        }
    }

    /// First step of the routing switch: nothing to do when the draft already has
    /// that setting; otherwise the draft takes it and the returned copy is saved.
    pub fn begin_set_routing(&mut self, enabled: bool) -> (to_save: Option<Config>)
        ensures
            old(self).draft.enabled == enabled ==> to_save is None && *final(self) == *old(self),
            old(self).draft.enabled != enabled ==> to_save == Some(final(self).draft)
                && final(self).draft == (Config { enabled, ..old(self).draft })
                && final(self).baseline == old(self).baseline
                && final(self).status == old(self).status
                && final(self).status_ok == old(self).status_ok
                && final(self).texts == old(self).texts,
    {
        if self.draft.enabled == enabled {
            return None;
        }
        self.draft.enabled = enabled;
        Some(self.draft.clone())
    }

    /// Last step of the routing switch: once saved and sent, the baseline takes the
    /// setting and the status says routing is on or off; on a failed send or save
    /// the draft goes back and the failure is reported.
    pub fn finish_set_routing(&mut self, enabled: bool, outcome: ApplyOutcome)
        ensures
            final(self).texts == old(self).texts,
            match outcome {
                ApplyOutcome::Applied => final(self).baseline == (Config { enabled, ..old(self).baseline })
                    && final(self).draft == old(self).draft
                    && final(self).status@ == (if enabled { old(self).texts.status_routing_on@ } else { old(self).texts.status_routing_off@ })
                    && final(self).status_ok,
                ApplyOutcome::SendFailed => final(self).baseline == old(self).baseline
                    && final(self).draft == (Config { enabled: !enabled, ..old(self).draft })
                    && final(self).status@ == old(self).texts.status_command_failed@
                    && !final(self).status_ok,
                ApplyOutcome::SaveFailed(e) => final(self).baseline == old(self).baseline
                    && final(self).draft == (Config { enabled: !enabled, ..old(self).draft })
                    && final(self).status@ == error_label(e) + ": "@ + error_message(e)
                    && !final(self).status_ok,
            },
    {
        match outcome {
            ApplyOutcome::Applied => {
                self.baseline.enabled = enabled;
                self.status = if enabled {
                    self.texts.status_routing_on.to_string()
                } else {
                    self.texts.status_routing_off.to_string()
                };
                self.status_ok = true;
            },
            ApplyOutcome::SendFailed => {
                self.draft.enabled = !enabled;
                self.status = self.texts.status_command_failed.to_string();
                self.status_ok = false;
            },
            ApplyOutcome::SaveFailed(e) => {
                self.draft.enabled = !enabled;
                self.status = e.describe();
                self.status_ok = false;
            },
        }
    }
}

/// Apply then Cancel keeps what was applied: after a successful Apply (as
/// `finish_apply` states it) and then Cancel (as `cancel` states it), the draft is
/// the configuration that was applied.
pub proof fn law_cancel_after_apply_keeps_applied(f0: SettingsForm, f1: SettingsForm, f2: SettingsForm)
    requires
        f1.baseline == f0.draft,
        f1.draft == f0.draft,
        f2.draft == f1.baseline,
    ensures
        f2.draft == f0.draft,
{
}

/// Applying again without edits changes no endpoint query (for ASCII queries):
/// after two Apply steps in a row, as `begin_apply` states each, the draft holds
/// the queries that the first one gave.
pub proof fn law_apply_twice_keeps_queries(f0: SettingsForm, f1: SettingsForm, f2: SettingsForm)
    requires
        is_ascii_chars(f0.draft.devices.voice_input@),
        is_ascii_chars(f0.draft.devices.virtual_mic_output@),
        is_ascii_chars(f0.draft.devices.monitor_output@),
        device_names_view(f1.draft.devices) == (
            stable_query(f0.draft.devices.voice_input@),
            stable_query(f0.draft.devices.virtual_mic_output@),
            stable_query(f0.draft.devices.monitor_output@),
        ),
        device_names_view(f2.draft.devices) == (
            stable_query(f1.draft.devices.voice_input@),
            stable_query(f1.draft.devices.virtual_mic_output@),
            stable_query(f1.draft.devices.monitor_output@),
        ),
    ensures
        device_names_view(f2.draft.devices) == device_names_view(f1.draft.devices),
{
    law_stable_query_idempotent(f0.draft.devices.voice_input@);
    law_stable_query_idempotent(f0.draft.devices.virtual_mic_output@);
    law_stable_query_idempotent(f0.draft.devices.monitor_output@);
}

} // verus!
