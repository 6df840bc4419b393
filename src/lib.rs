//! Push-to-talk dictation core: hotkey state machine, capture buffer,
//! WAV container encoding and the transcription exchange's pure parts.

pub mod capture;
pub mod config;
pub mod hotkey;
pub mod pipeline;
pub mod transcription;
pub mod wav;
