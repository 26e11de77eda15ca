//! The rules of the blit that brings a Unity texture into a pixel buffer for the encoder.
//!
//! The GPU is not this module's: the calls into Metal, Core Video and Unity are made by the
//! caller, who reports how they went.

pub mod blit;
pub mod geometry;
pub mod marker;
pub mod plugin;
pub mod pool;
pub mod texture;
