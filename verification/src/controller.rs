//! The streaming controller: owns the window accumulator and the note
//! catalog, and is driven once per incoming audio chunk.
//!
//! The spectral transform that turns a completed window into a
//! magnitude spectrum is floating-point work performed by the caller:
//! the controller hands out completed windows, the caller transforms
//! each one into magnitude keys and hands the spectrum back for
//! estimation. Every decision the pipeline makes — windowing and note
//! selection — happens here, under contract.

use crate::accumulator::{residue_of, seq_views, windows_of, WindowAccumulator};
use crate::estimator::{estimate, is_detection, DetectionResult};
use crate::notes::{all_notes, note_table, Note};
use vstd::prelude::*;

verus! {

/// Drives the analysis pipeline for one capture session: buffers the
/// sample stream into fixed-size windows and maps each magnitude
/// spectrum to the best-matching note of the fixed catalog.
pub struct StreamingController {
    accumulator: WindowAccumulator,
    sample_rate_hz: u32,
    notes: Vec<Note>,
}

impl StreamingController {
    /// The capture session's sample rate in hertz.
    pub closed spec fn sample_rate(self) -> nat {
        self.sample_rate_hz as nat
    }

    /// The fixed window length of the session, in samples.
    pub closed spec fn fft_size(self) -> nat {
        self.accumulator.window_size()
    }

    /// The samples buffered but not yet part of a complete window.
    pub closed spec fn pending(self) -> Seq<u32> {
        self.accumulator.pending()
    }

    /// The note catalog the controller matches against.
    pub closed spec fn catalog(self) -> Seq<Note> {
        self.notes@
    }

    /// The controller's invariant: a positive sample rate, a
    /// well-formed accumulator, and the full note table as catalog.
    pub closed spec fn well_formed(self) -> bool {
        &&& self.accumulator.well_formed()
        &&& self.sample_rate() >= 1
        &&& self.catalog() == note_table()
    }

    /// Creates a controller for a session with the given sample rate,
    /// emitting analysis windows of exactly `fft_size` samples.
    pub fn new(sample_rate_hz: u32, fft_size: usize) -> (r: Self)
        requires
            sample_rate_hz >= 1,
            fft_size >= 1,
        ensures
            r.well_formed(),
            r.sample_rate() == sample_rate_hz,
            r.fft_size() == fft_size,
            r.pending() == Seq::<u32>::empty(),
    {
        StreamingController {
            accumulator: WindowAccumulator::new(fft_size),
            sample_rate_hz,
            notes: all_notes(),
        }
    }

    /// Feeds one incoming chunk of sample keys and returns every
    /// analysis window it completes, oldest first; leftover samples
    /// stay buffered for the next chunk.
    pub fn push_chunk(&mut self, chunk: &Vec<u32>) -> (r: Vec<Vec<u32>>)
        requires
            old(self).well_formed(),
        ensures
            final(self).well_formed(),
            final(self).sample_rate() == old(self).sample_rate(),
            final(self).fft_size() == old(self).fft_size(),
            seq_views(r@) == windows_of(old(self).pending() + chunk@, old(self).fft_size()),
            final(self).pending() == residue_of(
                old(self).pending() + chunk@,
                old(self).fft_size(),
            ),
            forall|i: int| 0 <= i < r@.len() ==> (#[trigger] r@[i])@.len() == old(self).fft_size(),
    {
        self.accumulator.push(chunk)
    }

    /// Maps one magnitude spectrum, computed from a completed window,
    /// to the best-matching note of the catalog.
    pub fn analyze_spectrum(&self, spectrum: &Vec<u32>) -> (r: DetectionResult)
        requires
            self.well_formed(),
        ensures
            is_detection(r, spectrum@, self.sample_rate(), self.fft_size(), note_table()),
    {
        let fft_size = self.accumulator.window_len();
        estimate(spectrum, self.sample_rate_hz, fft_size, &self.notes)
    }
}

} // verus!
