//! Decision logic of a command-line tool that downloads the audio of a video,
//! transcodes it for speech recognition, has it transcribed by a remote
//! service and delivers the transcript.
//!
//! The library performs no input or output. It says which external work is
//! due next, judges what came back, and describes every failure.

pub mod error;
pub mod text;
pub mod command;
pub mod json;
pub mod transcribe;
pub mod pipeline;
pub mod laws;
