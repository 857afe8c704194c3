//! The pitch estimator: maps a magnitude spectrum to the note whose
//! fundamental frequency lies nearest to the strongest matching bin.
//!
//! Spectral magnitudes are carried as opaque `u32` keys whose unsigned
//! order matches the order of the underlying physical magnitudes, with
//! key `0` standing for the zero floor. The frequency resolution of
//! the spectrum, `sample_rate / fft_size` hertz per bin, is represented
//! exactly by the integer pair `(sample_rate_hz, fft_size)`.

use crate::notes::Note;
use vstd::prelude::*;

verus! {

/// The outcome of analyzing one spectrum: the best-matching note, or
/// none when no note's target bin rises above the zero floor, together
/// with the magnitude key of the winning bin.
#[derive(Clone, Copy, PartialEq, Eq, Debug)]
pub struct DetectionResult {
    /// The best-matching note, if any bin of a cataloged note was
    /// strictly above the zero floor.
    pub note: Option<Note>,
    /// The magnitude key of the winning bin; `0` when no note matched.
    pub magnitude: u32,
}

/// The spectral bin nearest to a frequency of `freq_centihz`, for a
/// spectrum whose bins are `sample_rate_hz / fft_size` hertz apart:
/// `round(freq * fft_size / sample_rate)`, rounding half upward.
pub open spec fn spec_target_bin(freq_centihz: nat, sample_rate_hz: nat, fft_size: nat) -> nat
    recommends
        sample_rate_hz >= 1,
{
    (2 * freq_centihz * fft_size + 100 * sample_rate_hz) / (200 * sample_rate_hz)
}

/// The spectral bin nearest to a note's fundamental frequency.
pub open spec fn spec_bin_of(n: Note, sample_rate_hz: nat, fft_size: nat) -> nat {
    spec_target_bin(n.spec_frequency_centihz() as nat, sample_rate_hz, fft_size)
}

/// What the estimator returns: `r` is the verdict of a first-strict-max
/// scan of `notes` in table order. Either no note's in-range bin is
/// above the zero floor and `r` is empty, or `r` names the earliest
/// note whose in-range bin attains the strict maximum magnitude.
pub open spec fn is_detection(
    r: DetectionResult,
    spectrum: Seq<u32>,
    sample_rate_hz: nat,
    fft_size: nat,
    notes: Seq<Note>,
) -> bool {
    match r.note {
        None => {
            &&& r.magnitude == 0
            &&& forall|j: int|
                0 <= j < notes.len() && spec_bin_of(#[trigger] notes[j], sample_rate_hz, fft_size)
                    < spectrum.len() ==> spectrum[spec_bin_of(
                    notes[j],
                    sample_rate_hz,
                    fft_size,
                ) as int] == 0
        },
        Some(n) => {
            exists|i: int|
                {
                    &&& 0 <= i < notes.len()
                    &&& #[trigger] notes[i] == n
                    &&& spec_bin_of(n, sample_rate_hz, fft_size) < spectrum.len()
                    &&& spectrum[spec_bin_of(n, sample_rate_hz, fft_size) as int] == r.magnitude
                    &&& r.magnitude > 0
                    &&& forall|j: int|
                        0 <= j < notes.len() && spec_bin_of(
                            #[trigger] notes[j],
                            sample_rate_hz,
                            fft_size,
                        ) < spectrum.len() ==> spectrum[spec_bin_of(
                            notes[j],
                            sample_rate_hz,
                            fft_size,
                        ) as int] <= r.magnitude
                    &&& forall|j: int|
                        0 <= j < i && spec_bin_of(#[trigger] notes[j], sample_rate_hz, fft_size)
                            < spectrum.len() ==> spectrum[spec_bin_of(
                            notes[j],
                            sample_rate_hz,
                            fft_size,
                        ) as int] < r.magnitude
                }
        },
    }
}

/// Computes the target bin for a frequency and checks it against the
/// spectrum length: the bin when it is in range, nothing when the
/// frequency falls outside the analyzable range.
fn checked_target_bin(freq_centihz: u32, sample_rate_hz: u32, fft_size: usize, len: usize) -> (r:
    Option<usize>)
    requires
        sample_rate_hz >= 1,
    ensures
        match r {
            Some(b) => b < len && b == spec_target_bin(
                freq_centihz as nat,
                sample_rate_hz as nat,
                fft_size as nat,
            ),
            None => spec_target_bin(freq_centihz as nat, sample_rate_hz as nat, fft_size as nat)
                >= len,
        },
{
    let f: u128 = freq_centihz as u128;
    let n: u128 = fft_size as u128;
    let s: u128 = sample_rate_hz as u128;
    proof {
        assert(2 * f * n + 100 * s <= u128::MAX) by (nonlinear_arith)
            requires
                f <= 0xffff_ffffu128,
                n <= 0xffff_ffff_ffff_ffffu128,
                s <= 0xffff_ffffu128,
        ;
    }
    let num: u128 = 2 * f * n + 100 * s;
    let den: u128 = 200 * s;
    let bin: u128 = num / den;
    if bin < (len as u128) {
        Some(bin as usize)
    } else {
        None
    }
}

/// Scans the note catalog in table order and returns the note whose
/// target bin carries the strictly greatest magnitude above the zero
/// floor; ties keep the earlier note, and notes whose target bin falls
/// beyond the spectrum are skipped.
pub fn estimate(spectrum: &Vec<u32>, sample_rate_hz: u32, fft_size: usize, notes: &Vec<Note>) -> (r:
    DetectionResult)
    requires
        sample_rate_hz >= 1,
    ensures
        is_detection(r, spectrum@, sample_rate_hz as nat, fft_size as nat, notes@),
{
    let ghost sr: nat = sample_rate_hz as nat;
    let ghost fft: nat = fft_size as nat;
    let mut best_note: Option<Note> = None;
    let mut best_mag: u32 = 0;
    let ghost mut best_i: int = 0;
    let count = notes.len();
    let mut idx: usize = 0;
    while idx < count
        invariant
            count == notes@.len(),
            idx <= count,
            sample_rate_hz >= 1,
            sr == sample_rate_hz as nat,
            fft == fft_size as nat,
            match best_note {
                None => {
                    &&& best_mag == 0
                    &&& forall|j: int|
                        0 <= j < idx && spec_bin_of(#[trigger] notes@[j], sr, fft)
                            < spectrum@.len() ==> spectrum@[spec_bin_of(notes@[j], sr, fft) as int]
                            == 0
                },
                Some(bn) => {
                    &&& 0 <= best_i < idx
                    &&& notes@[best_i] == bn
                    &&& spec_bin_of(bn, sr, fft) < spectrum@.len()
                    &&& spectrum@[spec_bin_of(bn, sr, fft) as int] == best_mag
                    &&& best_mag > 0
                    &&& forall|j: int|
                        0 <= j < idx && spec_bin_of(#[trigger] notes@[j], sr, fft)
                            < spectrum@.len() ==> spectrum@[spec_bin_of(notes@[j], sr, fft) as int]
                            <= best_mag
                    &&& forall|j: int|
                        0 <= j < best_i && spec_bin_of(#[trigger] notes@[j], sr, fft)
                            < spectrum@.len() ==> spectrum@[spec_bin_of(notes@[j], sr, fft) as int]
                            < best_mag
                },
            },
        decreases count - idx,
    {
        let note = notes[idx];
        match checked_target_bin(note.frequency_centihz(), sample_rate_hz, fft_size, spectrum.len()) {
            Some(b) => {
                let mag = spectrum[b];
                if mag > best_mag {
                    best_mag = mag;
                    best_note = Some(note);
                    proof {
                        best_i = idx as int;
                    }
                }
            },
            None => {},
        }
        idx = idx + 1;
    }
    let r = DetectionResult { note: best_note, magnitude: best_mag };
    proof {
        if r.note is Some {
            let bn = r.note->Some_0;
            assert(0 <= best_i < notes@.len() && notes@[best_i] == bn && spec_bin_of(bn, sr, fft)
                < spectrum@.len() && spectrum@[spec_bin_of(bn, sr, fft) as int] == r.magnitude
                && r.magnitude > 0);
        }
    }
    r
}

} // verus!
