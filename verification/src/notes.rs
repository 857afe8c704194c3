//! The fixed catalog of musical notes the detector can report.
//!
//! The catalog spans a contiguous chromatic range from G3 to E7 in
//! semitone steps. Each note carries its equal-temperament fundamental
//! frequency, stored in centihertz (hundredths of a hertz) so that
//! fractional precision is kept without leaving integer arithmetic.

use vstd::prelude::*;

verus! {

/// A musical note in the detectable range, ordered from lowest to
/// highest fundamental frequency.
#[derive(Clone, Copy, PartialEq, Eq, Structural, Debug)]
pub enum Note {
    G3,
    G3Sharp,
    A3,
    A3Sharp,
    B3,
    C4,
    C4Sharp,
    D4,
    D4Sharp,
    E4,
    F4,
    F4Sharp,
    G4,
    G4Sharp,
    A4,
    A4Sharp,
    B4,
    C5,
    C5Sharp,
    D5,
    D5Sharp,
    E5,
    F5,
    F5Sharp,
    G5,
    G5Sharp,
    A5,
    A5Sharp,
    B5,
    C6,
    C6Sharp,
    D6,
    D6Sharp,
    E6,
    F6,
    F6Sharp,
    G6,
    G6Sharp,
    A6,
    A6Sharp,
    B6,
    C7,
    C7Sharp,
    D7,
    D7Sharp,
    E7,
}

impl Note {
    /// The note's fundamental frequency in centihertz.
    pub open spec fn spec_frequency_centihz(self) -> u32 {
        match self {
            Note::G3 => 19600,
            Note::G3Sharp => 20765,
            Note::A3 => 22000,
            Note::A3Sharp => 23308,
            Note::B3 => 24694,
            Note::C4 => 26163,
            Note::C4Sharp => 27718,
            Note::D4 => 29366,
            Note::D4Sharp => 31113,
            Note::E4 => 32963,
            Note::F4 => 34923,
            Note::F4Sharp => 36999,
            Note::G4 => 39200,
            Note::G4Sharp => 41530,
            Note::A4 => 44000,
            Note::A4Sharp => 46616,
            Note::B4 => 49388,
            Note::C5 => 52325,
            Note::C5Sharp => 55437,
            Note::D5 => 58733,
            Note::D5Sharp => 62225,
            Note::E5 => 65926,
            Note::F5 => 69846,
            Note::F5Sharp => 73999,
            Note::G5 => 78399,
            Note::G5Sharp => 83061,
            Note::A5 => 88000,
            Note::A5Sharp => 93233,
            Note::B5 => 98777,
            Note::C6 => 104650,
            Note::C6Sharp => 110873,
            Note::D6 => 117466,
            Note::D6Sharp => 124451,
            Note::E6 => 131851,
            Note::F6 => 139691,
            Note::F6Sharp => 147998,
            Note::G6 => 156798,
            Note::G6Sharp => 166122,
            Note::A6 => 176000,
            Note::A6Sharp => 186466,
            Note::B6 => 197553,
            Note::C7 => 209300,
            Note::C7Sharp => 221746,
            Note::D7 => 234932,
            Note::D7Sharp => 248902,
            Note::E7 => 263702,
        }
    }

    /// Returns the note's fundamental frequency in centihertz.
    pub fn frequency_centihz(&self) -> (r: u32)
        ensures
            r == self.spec_frequency_centihz(),
    {
        match self {
            Note::G3 => 19600,
            Note::G3Sharp => 20765,
            Note::A3 => 22000,
            Note::A3Sharp => 23308,
            Note::B3 => 24694,
            Note::C4 => 26163,
            Note::C4Sharp => 27718,
            Note::D4 => 29366,
            Note::D4Sharp => 31113,
            Note::E4 => 32963,
            Note::F4 => 34923,
            Note::F4Sharp => 36999,
            Note::G4 => 39200,
            Note::G4Sharp => 41530,
            Note::A4 => 44000,
            Note::A4Sharp => 46616,
            Note::B4 => 49388,
            Note::C5 => 52325,
            Note::C5Sharp => 55437,
            Note::D5 => 58733,
            Note::D5Sharp => 62225,
            Note::E5 => 65926,
            Note::F5 => 69846,
            Note::F5Sharp => 73999,
            Note::G5 => 78399,
            Note::G5Sharp => 83061,
            Note::A5 => 88000,
            Note::A5Sharp => 93233,
            Note::B5 => 98777,
            Note::C6 => 104650,
            Note::C6Sharp => 110873,
            Note::D6 => 117466,
            Note::D6Sharp => 124451,
            Note::E6 => 131851,
            Note::F6 => 139691,
            Note::F6Sharp => 147998,
            Note::G6 => 156798,
            Note::G6Sharp => 166122,
            Note::A6 => 176000,
            Note::A6Sharp => 186466,
            Note::B6 => 197553,
            Note::C7 => 209300,
            Note::C7Sharp => 221746,
            Note::D7 => 234932,
            Note::D7Sharp => 248902,
            Note::E7 => 263702,
        }
    }
}

/// The full catalog in table order: every detectable note, lowest
/// fundamental first.
pub open spec fn note_table() -> Seq<Note> {
    seq![
        Note::G3,
        Note::G3Sharp,
        Note::A3,
        Note::A3Sharp,
        Note::B3,
        Note::C4,
        Note::C4Sharp,
        Note::D4,
        Note::D4Sharp,
        Note::E4,
        Note::F4,
        Note::F4Sharp,
        Note::G4,
        Note::G4Sharp,
        Note::A4,
        Note::A4Sharp,
        Note::B4,
        Note::C5,
        Note::C5Sharp,
        Note::D5,
        Note::D5Sharp,
        Note::E5,
        Note::F5,
        Note::F5Sharp,
        Note::G5,
        Note::G5Sharp,
        Note::A5,
        Note::A5Sharp,
        Note::B5,
        Note::C6,
        Note::C6Sharp,
        Note::D6,
        Note::D6Sharp,
        Note::E6,
        Note::F6,
        Note::F6Sharp,
        Note::G6,
        Note::G6Sharp,
        Note::A6,
        Note::A6Sharp,
        Note::B6,
        Note::C7,
        Note::C7Sharp,
        Note::D7,
        Note::D7Sharp,
        Note::E7,
    ]
}

/// Produces the full ordered catalog of notes.
#[verifier::rlimit(100)]
pub fn all_notes() -> (r: Vec<Note>)
    ensures
        r@ == note_table(),
{
    let mut notes: Vec<Note> = Vec::new();
    notes.push(Note::G3);
    notes.push(Note::G3Sharp);
    notes.push(Note::A3);
    notes.push(Note::A3Sharp);
    notes.push(Note::B3);
    notes.push(Note::C4);
    notes.push(Note::C4Sharp);
    notes.push(Note::D4);
    notes.push(Note::D4Sharp);
    notes.push(Note::E4);
    notes.push(Note::F4);
    notes.push(Note::F4Sharp);
    notes.push(Note::G4);
    notes.push(Note::G4Sharp);
    notes.push(Note::A4);
    notes.push(Note::A4Sharp);
    notes.push(Note::B4);
    notes.push(Note::C5);
    notes.push(Note::C5Sharp);
    notes.push(Note::D5);
    notes.push(Note::D5Sharp);
    notes.push(Note::E5);
    notes.push(Note::F5);
    notes.push(Note::F5Sharp);
    notes.push(Note::G5);
    notes.push(Note::G5Sharp);
    notes.push(Note::A5);
    notes.push(Note::A5Sharp);
    notes.push(Note::B5);
    notes.push(Note::C6);
    notes.push(Note::C6Sharp);
    notes.push(Note::D6);
    notes.push(Note::D6Sharp);
    notes.push(Note::E6);
    notes.push(Note::F6);
    notes.push(Note::F6Sharp);
    notes.push(Note::G6);
    notes.push(Note::G6Sharp);
    notes.push(Note::A6);
    notes.push(Note::A6Sharp);
    notes.push(Note::B6);
    notes.push(Note::C7);
    notes.push(Note::C7Sharp);
    notes.push(Note::D7);
    notes.push(Note::D7Sharp);
    notes.push(Note::E7);
    proof {
        assert(notes@ =~= note_table());
    }
    notes
}

/// Frequencies are strictly increasing along a sequence of notes: every
/// earlier note is strictly lower than every later one.
pub open spec fn frequencies_strictly_increase(t: Seq<Note>) -> bool {
    forall|i: int, j: int|
        0 <= i < j < t.len() ==> #[trigger] t[i].spec_frequency_centihz()
            < #[trigger] t[j].spec_frequency_centihz()
}

proof fn lemma_adjacent_implies_pairwise(t: Seq<Note>, i: int, j: int)
    requires
        forall|k: int|
            0 <= k < t.len() - 1 ==> #[trigger] t[k].spec_frequency_centihz()
                < t[k + 1].spec_frequency_centihz(),
        0 <= i < j < t.len(),
    ensures
        t[i].spec_frequency_centihz() < t[j].spec_frequency_centihz(),
    decreases j - i,
{
    if i + 1 < j {
        lemma_adjacent_implies_pairwise(t, i, j - 1);
    }
}

/// The catalog invariant: the note table's fundamental frequencies are
/// strictly increasing in table order, so no two notes share a
/// frequency.
#[verifier::rlimit(60)]
pub proof fn lemma_note_table_frequencies_increase()
    ensures
        frequencies_strictly_increase(note_table()),
{
    let t = note_table();
    assert(forall|k: int|
        0 <= k < t.len() - 1 ==> #[trigger] t[k].spec_frequency_centihz()
            < t[k + 1].spec_frequency_centihz());
    assert forall|i: int, j: int| 0 <= i < j < t.len() implies #[trigger] t[i].spec_frequency_centihz()
        < #[trigger] t[j].spec_frequency_centihz() by {
        lemma_adjacent_implies_pairwise(t, i, j);
    }
}

} // verus!
