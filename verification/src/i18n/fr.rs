//! French UI strings.

use vstd::prelude::*;

use super::UiText;

verus! {

/// The French string table.
pub open spec fn spec_texts() -> UiText {
    UiText {
        header_subtitle: "Micro → câble virtuel",
        status_active: "Actif",
        status_reconnecting: "Reconnexion…",
        status_inactive: "Inactif",
        btn_quit: "Quitter",
        btn_apply: "Appliquer",
        btn_cancel: "Annuler",
        section_general: "GÉNÉRAL",
        section_routing: "ROUTAGE",
        section_devices: "PÉRIPHÉRIQUES",
        section_audio: "AUDIO",
        routing_enable: "Activer le routage",
        device_mic: "Micro",
        device_vac: "Micro virtuel",
        device_monitor: "Sortie d'écoute",
        monitor_headphones: "Écoute casque",
        monitor_volume: "Volume d'écoute",
        gain_voice: "Gain voix",
        gain_master: "Général",
        buffer_latency: "Tampon",
        buffer_hint: "Augmentez le tampon à 256 ou 512 en cas de craquements.",
        status_send_failed: "Enregistré, mais le moteur audio n'a pas reçu les nouveaux réglages.",
        status_command_failed: "Le moteur audio n'a pas reçu la commande.",
        status_apply_ok: "Réglages appliqués.",
        status_routing_on: "Routage activé.",
        status_routing_off: "Routage désactivé.",
        window_title: "MixMixer — Réglages",
        tray_about: "À propos",
        tray_quit: "Quitter",
        tray_tooltip: "MixMixer",
        about_title: "À propos de MixMixer",
        about_description: "Envoie votre micro traité par Equalizer APO vers VB-Audio Virtual Cable avec une latence minimale.",
        about_url: "https://github.com/Mestryx-dev/MixMixer",
    }
}

/// The French string table.
pub fn texts() -> (t: UiText)
    ensures
        t == spec_texts(),
{
    UiText {
        header_subtitle: "Micro → câble virtuel",
        status_active: "Actif",
        status_reconnecting: "Reconnexion…",
        status_inactive: "Inactif",
        btn_quit: "Quitter",
        btn_apply: "Appliquer",
        btn_cancel: "Annuler",
        section_general: "GÉNÉRAL",
        section_routing: "ROUTAGE",
        section_devices: "PÉRIPHÉRIQUES",
        section_audio: "AUDIO",
        routing_enable: "Activer le routage",
        device_mic: "Micro",
        device_vac: "Micro virtuel",
        device_monitor: "Sortie d'écoute",
        monitor_headphones: "Écoute casque",
        monitor_volume: "Volume d'écoute",
        gain_voice: "Gain voix",
        gain_master: "Général",
        buffer_latency: "Tampon",
        buffer_hint: "Augmentez le tampon à 256 ou 512 en cas de craquements.",
        status_send_failed: "Enregistré, mais le moteur audio n'a pas reçu les nouveaux réglages.",
        status_command_failed: "Le moteur audio n'a pas reçu la commande.",
        status_apply_ok: "Réglages appliqués.",
        status_routing_on: "Routage activé.",
        status_routing_off: "Routage désactivé.",
        window_title: "MixMixer — Réglages",
        tray_about: "À propos",
        tray_quit: "Quitter",
        tray_tooltip: "MixMixer",
        about_title: "À propos de MixMixer",
        about_description: "Envoie votre micro traité par Equalizer APO vers VB-Audio Virtual Cable avec une latence minimale.",
        about_url: "https://github.com/Mestryx-dev/MixMixer",
    }
}

} // verus!
