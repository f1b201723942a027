//! Mixing of fixed-size 16-bit PCM frames.
//!
//! A frame holds 20 ms of interleaved stereo audio at 48 kHz: 960 signed
//! 16-bit samples, left and right alternating. Frames from any number of
//! sources are summed sample by sample and saturated to the 16-bit range.

pub mod mix;

pub use mix::{combine_audio_parts, saturate_sample, RawAudio, MAX_AUDIO_BUFFER, RAW_AUDIO_SIZE};
