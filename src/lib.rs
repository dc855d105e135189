//! Push-to-talk capture core.
//!
//! - `silence`: the per-sample filter that drops long runs of quiet samples.
//! - `transform`: channel reduction of captured audio and the native format.
//! - `engine`: the capture buffer of a session and the drain that hands it on.
//! - `session`: the state machine that gates recordings with a single permit.
//! - `config`, `defaults`: settings as plain values, and completing stored
//!   settings from defaults.
//! - `hotkey`, `menu`: the push-to-talk key and the tray-menu commands.
//!
//! Samples are signed 16-bit PCM values; full scale is 32768.

pub mod silence;
pub mod transform;
pub mod engine;
pub mod session;
pub mod config;
pub mod hotkey;
pub mod menu;
pub mod defaults;
