//! Streaming audio accumulator and generation-session driver.
//!
//! The library ingests generated audio as interleaved 16-bit PCM chunks,
//! buffers them durably, tracks the playback timeline, re-encodes the
//! accumulated samples for export, and drives the protocol state machine
//! of one generation session.

pub mod accum;
pub mod session;
pub mod wire;
pub mod mp3;
pub mod pcm;
pub mod wav;

pub use accum::{AudioError, AudioStreamer, PlaybackPlan};
pub use pcm::decode_pcm16_le;
