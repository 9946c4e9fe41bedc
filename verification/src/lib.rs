//! Playback scheduling and effect interpolation for an audio engine.
//!
//! A player holds one track and the ramps scheduled on it; a channel plays a
//! queue of players one after the other; a mixer keeps channels by name.
//! Nothing here touches an audio device or sleeps: a player records the
//! commands for its backend and is told what the backend reports, and the
//! background loops call `tick` at their own pace.
//!
//! Times are whole microseconds and parameter values whole millionths, so
//! one second, full volume and normal speed are all `timesync::UNIT`.

pub mod audioqueue;
pub mod audiosink;
pub mod audiotimer;
pub mod exceptions;
pub mod exmetadata;
pub mod mixer;
pub mod playback;
pub mod timesync;
