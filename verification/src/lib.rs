//! Streaming musical pitch detection core.
//!
//! The library buffers variable-sized chunks of audio samples into
//! fixed-size analysis windows, and maps a magnitude spectrum computed
//! from each window to the musical note whose fundamental frequency is
//! nearest to the dominant spectral peak.
//!
//! Sample values and spectral magnitudes travel through this crate as
//! opaque unsigned integer keys whose ordering matches the ordering of
//! the underlying physical quantities; the caller chooses the encoding.
//! Frequencies are held in centihertz so that fractional precision is
//! kept while every quantity stays a plain integer.

pub mod accumulator;
pub mod controller;
pub mod estimator;
pub mod notes;
