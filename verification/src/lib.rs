//! A clip playback scheduling engine, and the data and decisions of the application around
//! it.
//!
//! For every block of samples that a host asks for, the engine decides which part of a clip's
//! source material is played, at which position and speed, while the transport state of the
//! clip (stopped, scheduled, playing, suspending, paused) changes in response to control
//! operations. The engine decides; the host reads the timeline, asks the source and writes
//! the samples.
//!
//! All time values are integers: a position is an `i64` count of nanoseconds relative to the
//! start of the clip (negative during count-in), a duration is a `u64` count of nanoseconds.
//! Tempo factors and proportions are counted in millionths, tempos in thousandths of a beat
//! per minute, gains as fractions of two sample counts. Arithmetic that leaves the range of
//! its result type saturates at the ends of that range.
//!
//! The engine: [`time`], [`fade`], [`state`], [`transport`], [`block`], [`clip_source`],
//! [`midi`], [`recorder`], [`chain`], [`matrix`]. Around it: targets, menus, the preset
//! database of FX chains, the data of the server and of presets, metrics, and texts.

pub mod backbone;
pub mod bank_data;
pub mod base;
pub mod block;
pub mod chain;
pub mod clip_source;
pub(crate) mod clock;
pub mod fade;
pub mod feedback_buffer;
pub mod matrix;
pub mod menus;
pub mod metrics;
pub mod midi;
pub mod pot;
pub mod proto;
pub mod recorder;
pub mod server_data;
pub mod source;
pub mod state;
pub mod targets;
pub mod text;
pub mod time;
pub mod toolbar;
pub mod transport;
