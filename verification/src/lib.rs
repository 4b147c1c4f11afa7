//! Verified core of MixMixer: the routing rules, device matching, configuration
//! checks, ring buffer and state machines of a microphone-to-virtual-cable router.

pub mod app;
pub mod channel_map;
pub mod config;
pub mod devices;
pub mod engine;
pub mod error;
pub mod i18n;
pub mod metrics;
pub mod mixer;
pub mod render;
pub mod ring_buffer;
pub mod settings;
pub mod text;
pub mod tray;
pub mod ui_text;
