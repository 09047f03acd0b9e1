//! Live audio capture and spectral analysis: a bounded sample buffer, a
//! windowing stage, a capture session state machine, and the mapping from a
//! magnitude spectrum to a dominant frequency and a coarse chord label.
//!
//! Samples travel through the library as the IEEE-754 bit patterns of their
//! normalized 32-bit float values; the host converts at its edge.
pub mod chord;
mod ring;
pub mod sample_buffer;
pub mod window;
pub mod spectrum;
pub mod capture;
pub mod effects;
