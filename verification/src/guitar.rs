//! Tunings, and the instrument that a tuning gives.

use crate::note::{lemma_offset_additive, lemma_offset_period, Note};
use vstd::prelude::*;

verus! {

/// A rule that derives the open strings from a reference pitch class.
#[derive(Debug, Clone, Copy, PartialEq, Eq, Structural, PartialOrd, Ord, Hash)]
pub enum Tuning {
    /// Each string sounds a perfect fourth above the one before it.
    Fourths,
    /// Each string sounds a major third above the one before it.
    ScaleCentered,
}

impl Tuning {
    /// The distance in semitones from one string to the next.
    pub open spec fn spacing(self) -> int {
        match self {
            Tuning::Fourths => 5,
            Tuning::ScaleCentered => 4,
        }
    }

    /// The open strings of an instrument with `string_count` strings whose
    /// first string sounds `reference`.
    pub open spec fn open_notes(self, string_count: nat, reference: Note) -> Seq<Note> {
        Seq::new(string_count, |i: int| reference.offset(self.spacing() * i))
    }

    /// The distance in semitones from one string to the next.
    pub fn semitones(self) -> (r: usize)
        ensures
            r == self.spacing(),
    {
        match self {
            Tuning::Fourths => 5,
            Tuning::ScaleCentered => 4,
        }
    }
}

/// One string, known by the pitch class it sounds when played open.
#[derive(Debug)]
pub struct GuitarString {
    pub start: Note,
}

impl GuitarString {
    pub fn new(start: Note) -> (r: GuitarString)
        ensures
            r.start == start,
    {
        GuitarString { start }
    }
}

/// A fretted instrument: its strings in order, and the number of frets that
/// are counted on each of them.
#[derive(Debug)]
pub struct Guitar {
    pub strings: Vec<GuitarString>,
    pub notes_per_string: usize,
}

/// What a [`Guitar`] stands for: the pitch classes of its open strings, in
/// the order of the strings, and the number of frets counted on each.
pub struct GuitarView {
    pub open_notes: Seq<Note>,
    pub notes_per_string: nat,
}

impl View for Guitar {
    type V = GuitarView;

    open spec fn view(&self) -> GuitarView {
        GuitarView {
            open_notes: Seq::new(self.strings@.len(), |i: int| self.strings@[i].start),
            notes_per_string: self.notes_per_string as nat,
        }
    }
}

impl Guitar {
    /// An instrument of `string_count` strings, tuned by `tuning` from
    /// `start`, the pitch class of its first string.
    pub fn from_tuning(
        string_count: usize,
        start: Note,
        notes_per_string: usize,
        tuning: Tuning,
    ) -> (r: Guitar)
        ensures
            r@.open_notes == tuning.open_notes(string_count as nat, start),
            r@.open_notes.len() == string_count,
            string_count > 0 ==> r@.open_notes[0] == start,
            r@.notes_per_string == notes_per_string,
    {
        let step = tuning.semitones();
        let mut strings: Vec<GuitarString> = Vec::new();
        let mut current = start;
        let mut i: usize = 0;
        proof {
            lemma_offset_period(start, 0);
        }
        while i < string_count
            invariant
                i <= string_count,
                step == tuning.spacing(),
                strings@.len() == i,
                current == start.offset(tuning.spacing() * i),
                forall|k: int| 0 <= k < i ==> (#[trigger] strings@[k]).start == start.offset(
                    tuning.spacing() * k,
                ),
            decreases string_count - i,
        {
            strings.push(GuitarString::new(current));
            proof {
                lemma_offset_additive(start, tuning.spacing() * i, step as int);
                assert(tuning.spacing() * i + step == tuning.spacing() * (i + 1)) by (nonlinear_arith)
                    requires
                        step == tuning.spacing(),
                ;
            }
            current = current.cycle_from(step);
            i += 1;
        }
        let r = Guitar { strings, notes_per_string };
        assert(r@.open_notes =~= tuning.open_notes(string_count as nat, start));
        r
    }
}

} // verus!
