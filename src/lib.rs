//! Spectrum-acquisition pipeline control and the spot cache of a ham radio
//! station backend.

pub mod cache;
pub mod channel;
pub mod config;
pub mod sdr;
