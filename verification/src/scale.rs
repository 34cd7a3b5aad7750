//! Scales: a root pitch class and the interval pattern that is walked from it.

use crate::note::{
    lemma_at_ordinal, lemma_cycle_visits_each_once, lemma_offset_additive, Note,
};
use crate::note_set::{lemma_note_sets_are_small, NoteSet};
use vstd::prelude::*;

verus! {

/// A named interval pattern.
#[derive(Debug, Clone, Copy, PartialEq, Eq, Structural)]
pub enum ScaleMode {
    Major,
}

/// The sum of the first `k` steps of a pattern: the distance in semitones
/// from the root to the `k`-th degree.
pub open spec fn span(steps: Seq<usize>, k: int) -> int
    decreases k,
{
    if k <= 0 {
        0
    } else {
        span(steps, k - 1) + steps[k - 1]
    }
}

impl ScaleMode {
    /// The pattern's step sizes in semitones, in order.
    pub open spec fn steps(self) -> Seq<usize> {
        match self {
            ScaleMode::Major => seq![2usize, 2, 1, 2, 2, 2, 1],
        }
    }

    /// The pattern's name.
    pub open spec fn label(self) -> Seq<char> {
        match self {
            ScaleMode::Major => seq!['M', 'a', 'j', 'o', 'r'],
        }
    }

    /// The pattern's step sizes in semitones, in order.
    pub fn intervals_raw(self) -> (r: Vec<usize>)
        ensures
            r@ == self.steps(),
    {
        match self {
            ScaleMode::Major => {
                let r: Vec<usize> = vec![2, 2, 1, 2, 2, 2, 1];
                assert(r@ =~= self.steps());
                r
            },
        }
    }

    /// The `n`-th element of the endless sequence that repeats the pattern's
    /// step sizes.
    pub fn intervals(self, n: usize) -> (r: usize)
        ensures
            r == self.steps()[n as int % self.steps().len() as int],
    {
        let raw = self.intervals_raw();
        raw[n % raw.len()]
    }

    /// The pattern's name.
    pub fn name(self) -> (r: &'static str)
        ensures
            r@ == self.label(),
    {
        proof {
            reveal_strlit("Major");
        }
        let r = match self {
            ScaleMode::Major => "Major",
        };
        assert(r@ =~= self.label());
        r
    }
}

/// Every pattern is non-empty, takes only upward steps, and comes back to the
/// pitch class it started from: its steps add up to one octave.
pub proof fn lemma_pattern_spans_octave(mode: ScaleMode)
    ensures
        mode.steps().len() > 0,
        forall|i: int| 0 <= i < mode.steps().len() ==> mode.steps()[i] > 0,
        span(mode.steps(), mode.steps().len() as int) == 12,
{
    lemma_major_offsets();
}

/// A scale: the pattern of `mode` walked upwards from `start_note`.
#[derive(Debug, Clone, Copy)]
pub struct Scale {
    pub start_note: Note,
    pub mode: ScaleMode,
}

impl Scale {
    /// The pitch class of the `k`-th degree, counting the root as degree 0.
    pub open spec fn degree(self, k: int) -> Note {
        self.start_note.offset(span(self.mode.steps(), k))
    }

    /// The degrees in order, from the root to the degree that the last step
    /// of the pattern reaches.
    pub open spec fn degrees(self) -> Seq<Note> {
        Seq::new((self.mode.steps().len() + 1) as nat, |k: int| self.degree(k))
    }

    /// The pitch classes that belong to the scale.
    pub open spec fn members(self) -> Set<Note> {
        self.degrees().to_set()
    }

    /// The name of the root followed by the name of the pattern.
    pub open spec fn label(self) -> Seq<char> {
        self.start_note.label() + seq![' '] + self.mode.label()
    }

    /// The degrees in order: the root first, then one pitch class for each
    /// step of the pattern.
    pub fn notes_list(&self) -> (r: Vec<Note>)
        ensures
            r@ == self.degrees(),
            r@.len() == self.mode.steps().len() + 1,
            r@[0] == self.start_note,
    {
        let intervals = self.mode.intervals_raw();
        let mut notes: Vec<Note> = Vec::new();
        notes.push(self.start_note);
        let mut latest = self.start_note;
        let mut i: usize = 0;
        while i < intervals.len()
            invariant
                i <= intervals.len(),
                intervals@ == self.mode.steps(),
                notes@.len() == i + 1,
                latest == self.degree(i as int),
                forall|k: int| 0 <= k <= i ==> notes@[k] == self.degree(k),
            decreases intervals.len() - i,
        {
            let step = intervals[i];
            proof {
                lemma_offset_additive(
                    self.start_note,
                    span(self.mode.steps(), i as int),
                    step as int,
                );
            }
            latest = latest.cycle_from(step);
            notes.push(latest);
            i += 1;
        }
        assert(notes@ =~= self.degrees());
        notes
    }

    /// The pitch classes that belong to the scale, for membership tests.
    pub fn notes(&self) -> (r: NoteSet)
        ensures
            r@ == self.members(),
            r@.contains(self.start_note),
    {
        let list = self.notes_list();
        proof {
            lemma_scale_shape(*self);
        }
        NoteSet::from_notes(&list)
    }

    /// The name of the root followed by the name of the pattern.
    pub fn title(&self) -> (r: String)
        ensures
            r@ == self.label(),
    {
        let mut r = String::from_str(self.start_note.name());
        r.append(" ");
        r.append(self.mode.name());
        proof {
            reveal_strlit(" ");
            assert(r@ =~= self.label());
        }
        r
    }
}

/// The degrees of any scale start at its root and number one more than the
/// steps of its pattern; its members are at most that many, and the root is
/// one of them.
pub proof fn lemma_scale_shape(scale: Scale)
    ensures
        scale.degrees().len() == scale.mode.steps().len() + 1,
        scale.degrees()[0] == scale.start_note,
        scale.members().finite(),
        scale.members().len() <= scale.mode.steps().len() + 1,
        scale.members().contains(scale.start_note),
{
    lemma_at_ordinal(scale.start_note, 0);
    assert(scale.degrees()[0] == scale.degree(0));
    lemma_note_sets_are_small(scale.members());
    scale.degrees().lemma_cardinality_of_set();
}

/// The degrees of the major pattern lie 0, 2, 4, 5, 7, 9 and 11 semitones
/// above the root, and the pattern ends 12 above it.
proof fn lemma_major_offsets()
    ensures
        span(ScaleMode::Major.steps(), 0) == 0,
        span(ScaleMode::Major.steps(), 1) == 2,
        span(ScaleMode::Major.steps(), 2) == 4,
        span(ScaleMode::Major.steps(), 3) == 5,
        span(ScaleMode::Major.steps(), 4) == 7,
        span(ScaleMode::Major.steps(), 5) == 9,
        span(ScaleMode::Major.steps(), 6) == 11,
        span(ScaleMode::Major.steps(), 7) == 12,
{
    reveal_with_fuel(span, 8);
}

/// A major scale has eight degrees, of which the last is the root again.
pub proof fn lemma_major_closes(scale: Scale)
    requires
        scale.mode == ScaleMode::Major,
    ensures
        scale.degrees().len() == 8,
        scale.degrees().first() == scale.start_note,
        scale.degrees().last() == scale.start_note,
{
    lemma_scale_shape(scale);
    lemma_pattern_spans_octave(scale.mode);
    assert(scale.degrees()[7] == scale.degree(7));
}

/// A major scale has seven members, so no more than seven, and its root is
/// one of them.
pub proof fn lemma_major_members(scale: Scale)
    requires
        scale.mode == ScaleMode::Major,
    ensures
        scale.members().finite(),
        scale.members().len() <= 7,
        scale.members().len() == 7,
        scale.members().contains(scale.start_note),
{
    lemma_scale_shape(scale);
    lemma_major_closes(scale);
    let all = scale.degrees();
    let head = all.take(7);
    assert(all.to_set() =~= head.to_set()) by {
        assert forall|n: Note| all.to_set().contains(n) implies head.to_set().contains(n) by {
            let j = choose|j: int| 0 <= j < all.len() && all[j] == n;
            if j == 7 {
                assert(head[0] == n);
            } else {
                assert(head[j] == n);
            }
        }
        assert forall|n: Note| head.to_set().contains(n) implies all.to_set().contains(n) by {
            let j = choose|j: int| 0 <= j < head.len() && head[j] == n;
            assert(all[j] == n);
        }
    }
    assert(head.no_duplicates()) by {
        lemma_major_offsets();
        lemma_cycle_visits_each_once(scale.start_note, scale.start_note);
        assert forall|i: int| 0 <= i < 7 implies head[i] == scale.degree(i) by {}
    }
    head.unique_seq_to_set();
}

} // verus!
