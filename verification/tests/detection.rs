//! Tests of the note catalog, the pitch estimator, and the full
//! pipeline driven through the streaming controller with a real
//! spectral transform.

use pitch_detector::controller::StreamingController;
use pitch_detector::estimator::estimate;
use pitch_detector::notes::{all_notes, Note};
use rustfft::num_complex::Complex;
use rustfft::FftPlanner;

const SAMPLE_RATE: u32 = 44100;
const FFT_SIZE: usize = 1024;

/// Turns a window of sample keys back into real samples, runs the
/// forward transform, and returns each bin's magnitude as an
/// order-preserving key (the bit pattern of a non-negative float).
fn magnitude_keys(window: &[u32]) -> Vec<u32> {
    let mut buffer: Vec<Complex<f32>> = window
        .iter()
        .map(|&b| Complex::new(f32::from_bits(b), 0.0))
        .collect();
    let mut planner = FftPlanner::new();
    let fft = planner.plan_fft_forward(buffer.len());
    fft.process(&mut buffer);
    buffer.iter().map(|c| c.norm().to_bits()).collect()
}

fn sine_window(freq_hz: f32, len: usize) -> Vec<u32> {
    (0..len)
        .map(|n| {
            let t = n as f32 / SAMPLE_RATE as f32;
            (2.0 * std::f32::consts::PI * freq_hz * t).sin().to_bits()
        })
        .collect()
}

#[test]
fn catalog_is_ordered_and_exact() {
    let notes = all_notes();
    assert_eq!(notes.len(), 46);
    assert_eq!(notes[0], Note::G3);
    assert_eq!(notes[45], Note::E7);
    assert_eq!(Note::G3.frequency_centihz(), 19600);
    assert_eq!(Note::C4.frequency_centihz(), 26163);
    assert_eq!(Note::A4.frequency_centihz(), 44000);
    assert_eq!(Note::E7.frequency_centihz(), 263702);
    for pair in notes.windows(2) {
        assert!(pair[0].frequency_centihz() < pair[1].frequency_centihz());
    }
}

#[test]
fn estimator_picks_strongest_bin() {
    // At 44100 Hz / 1024 samples the resolution is about 43.07 Hz, so
    // G3 (196.00 Hz) targets bin 5 and B3 (246.94 Hz) targets bin 6.
    let notes = all_notes();
    let mut spectrum = vec![0u32; 8];
    spectrum[5] = 4;
    spectrum[6] = 9;
    let r = estimate(&spectrum, SAMPLE_RATE, FFT_SIZE, &notes);
    assert_eq!(r.note, Some(Note::B3));
    assert_eq!(r.magnitude, 9);
}

#[test]
fn estimator_tie_breaks_by_table_order() {
    // Two bins of equal magnitude, belonging to different notes: the
    // note earlier in table order wins.
    let notes = all_notes();
    let mut spectrum = vec![0u32; 8];
    spectrum[5] = 9; // G3
    spectrum[6] = 9; // B3
    let r = estimate(&spectrum, SAMPLE_RATE, FFT_SIZE, &notes);
    assert_eq!(r.note, Some(Note::G3));
    assert_eq!(r.magnitude, 9);
}

#[test]
fn estimator_skips_out_of_range_notes() {
    // Every note of the catalog targets bin 5 or higher at this
    // resolution, so a five-bin spectrum holds no note's bin: nothing
    // may be detected no matter how large the bin values are.
    let notes = all_notes();
    let spectrum = vec![u32::MAX; 5];
    let r = estimate(&spectrum, SAMPLE_RATE, FFT_SIZE, &notes);
    assert_eq!(r.note, None);
    assert_eq!(r.magnitude, 0);
}

#[test]
fn estimator_reports_nothing_on_zero_spectrum() {
    let notes = all_notes();
    let spectrum = vec![0u32; FFT_SIZE];
    let r = estimate(&spectrum, SAMPLE_RATE, FFT_SIZE, &notes);
    assert_eq!(r.note, None);
    assert_eq!(r.magnitude, 0);
}

#[test]
fn transform_peaks_at_expected_bin() {
    // A pure sinusoid at frequency f peaks at bin round(f / resolution),
    // within one bin of tolerance.
    let resolution = SAMPLE_RATE as f32 / FFT_SIZE as f32;
    for freq in [196.0f32, 440.0, 987.77, 2637.02] {
        let window = sine_window(freq, FFT_SIZE);
        let keys = magnitude_keys(&window);
        let half = &keys[..FFT_SIZE / 2];
        let peak = half
            .iter()
            .enumerate()
            .max_by_key(|&(_, &k)| k)
            .map(|(i, _)| i as i64)
            .unwrap();
        let expected = (freq / resolution).round() as i64;
        assert!(
            (peak - expected).abs() <= 1,
            "freq {freq}: peak bin {peak}, expected about {expected}"
        );
    }
}

#[test]
fn end_to_end_silence_detects_nothing() {
    let mut controller = StreamingController::new(SAMPLE_RATE, FFT_SIZE);
    let chunk = vec![0.0f32.to_bits(); FFT_SIZE];
    let windows = controller.push_chunk(&chunk);
    assert_eq!(windows.len(), 1);
    let spectrum = magnitude_keys(&windows[0]);
    let r = controller.analyze_spectrum(&spectrum);
    assert_eq!(r.note, None);
    assert_eq!(r.magnitude, 0);
    assert_eq!(f32::from_bits(r.magnitude), 0.0);
}

#[test]
fn end_to_end_sine_detects_a_note_at_the_peak_bin() {
    // Resolution check: 44100 / 1024 is about 43.07 Hz per bin.
    let resolution = SAMPLE_RATE as f32 / FFT_SIZE as f32;
    assert!((resolution - 43.07).abs() < 0.01);

    // A 440 Hz sine peaks at bin round(440 / 43.07) = 10. At this
    // resolution G4Sharp (415.30 Hz) and A4 (440.00 Hz) both target
    // bin 10, and the estimator keeps the note earlier in table
    // order, so the 440 Hz tone is reported as G4Sharp.
    let mut controller = StreamingController::new(SAMPLE_RATE, FFT_SIZE);
    let chunk = sine_window(440.0, FFT_SIZE);
    let windows = controller.push_chunk(&chunk);
    assert_eq!(windows.len(), 1);
    let spectrum = magnitude_keys(&windows[0]);
    let r = controller.analyze_spectrum(&spectrum);
    assert_eq!(r.note, Some(Note::G4Sharp));
    assert!(r.magnitude > 0);
    assert!(f32::from_bits(r.magnitude) > 0.0);

    // A tone between bins 12 and 13 is nearest to C5 (523.25 Hz,
    // bin 12), which shares its bin with no other note.
    let mut controller = StreamingController::new(SAMPLE_RATE, FFT_SIZE);
    let chunk = sine_window(523.25, FFT_SIZE);
    let windows = controller.push_chunk(&chunk);
    assert_eq!(windows.len(), 1);
    let spectrum = magnitude_keys(&windows[0]);
    let r = controller.analyze_spectrum(&spectrum);
    assert_eq!(r.note, Some(Note::C5));
    assert!(f32::from_bits(r.magnitude) > 0.0);
}

#[test]
fn streaming_chunks_feed_whole_windows() {
    // Chunks smaller than a window accumulate until a window
    // completes; each completed window analyzes independently.
    let mut controller = StreamingController::new(SAMPLE_RATE, FFT_SIZE);
    let samples = sine_window(523.25, FFT_SIZE + FFT_SIZE / 2);
    let mut results = Vec::new();
    for chunk in samples.chunks(256) {
        for window in controller.push_chunk(&chunk.to_vec()) {
            let spectrum = magnitude_keys(&window);
            results.push(controller.analyze_spectrum(&spectrum));
        }
    }
    assert_eq!(results.len(), 1);
    assert_eq!(results[0].note, Some(Note::C5));
}
