//! Capture-side analysis for an audio visualiser: device and stream
//! configuration choices, channel demultiplexing, spectrum shaping and the
//! snapshot that renderers read once per tick.
//!
//! Samples travel through this crate as the IEEE-754 bit patterns of `f32`
//! values (`f32::to_bits`). The crate moves, copies and zeroes them but never
//! does arithmetic on them, so every equality stated here is bit-exact, and
//! the zero sample is the bit pattern of `+0.0`.

pub mod audio;
pub mod channels;
pub mod config;
pub mod device;
pub mod events;
pub mod format;
pub mod lemmas;
pub mod spectrum;

pub use audio::{AnalyzedAudio, Audio, AudioEvent, PendingAnalysis, Received, Tick};
pub use channels::split_channels;
pub use config::{choose_config, ConfigError, ConfigRange, SampleFormat, StreamConfig};
pub use device::{fetch_devices, resolve_device, AudioDevice, DeviceChoice, DeviceProbe};
pub use events::{dispatch_ui_event, route_selection, AppAction, RendererKind, UIEvent};
pub use format::group_thousands;
pub use spectrum::{cutoff_bin, transform_input, trim_spectrum};
