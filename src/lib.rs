//! Framebuffer sprite playback: the compressed frame container, the device
//! geometry records, the placement of a sprite on screen and the pacing of
//! the playback loop.

pub mod codec;
pub mod error;
pub mod playback;
pub mod region;
pub mod screeninfo;
pub mod sink;
