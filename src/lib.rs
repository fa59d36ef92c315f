//! Turns raw video frames in one of six pixel layouts into JPEG frames,
//! carrying the frame's metadata header through unchanged.
//!
//! The library decides everything but the compression itself: it checks and
//! reshapes the pixel buffer, says which codec call to make with which
//! parameters, and assembles the output frame from what the codec returned.
pub mod convert;
pub mod frame;
pub mod layout;
pub mod laws;

