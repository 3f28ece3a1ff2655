//! Live audio analysis core: fixed-point signal metrics (RMS amplitude,
//! dominant frequency from a magnitude spectrum, derived wavelength),
//! note naming, frequency-band classification, and a single-cell
//! metrics store shared between a producer and a consumer.

pub mod analyzer;
pub mod bands;
pub mod metrics;
pub mod notes;
pub mod store;
