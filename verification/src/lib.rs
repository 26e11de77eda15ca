//! The parts of a video and audio encoder that decide and compute: buffers under a common limit,
//! errors and the replies that carry them across the C interface, the command line and the pipes
//! of an FFmpeg muxer, and the rules of the Metal blit that feeds the encoder.

pub mod buffer;
pub mod encoding_system;
pub mod error;
pub mod ffi;
pub mod graphics_event;
mod handle;
pub mod metal;
pub mod mux;
