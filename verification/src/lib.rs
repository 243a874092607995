//! Two-speaker amplitude panning of mono and stereo waveforms.
//!
//! A source of 16-bit samples is turned, frame by frame, into a stereo
//! stream of samples paired with the gain each is to be scaled by. The
//! direction of the virtual source may change from frame to frame.
//!
//! Angles and gains are binary64 numbers. They are carried by their bit
//! patterns; the arithmetic on them (the tangent law, the final product of
//! sample and gain) is left to the caller.

pub mod binary64;
pub mod error;
pub mod gain;
pub mod destination;
pub mod sweep;
pub mod vbap_converter;
