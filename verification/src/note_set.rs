//! A set of pitch classes with constant-time membership tests.

use crate::note::Note;
use std::collections::HashSet;
use vstd::prelude::*;
use vstd::set_lib::*;

verus! {

/// The set that holds all twelve pitch classes.
pub open spec fn all_notes() -> Set<Note> {
    set![
        Note::C,
        Note::Cs,
        Note::D,
        Note::Ds,
        Note::E,
        Note::F,
        Note::Fs,
        Note::G,
        Note::Gs,
        Note::A,
        Note::As,
        Note::B,
    ]
}

/// Every set of pitch classes is finite and has at most twelve members.
pub proof fn lemma_note_sets_are_small(s: Set<Note>)
    ensures
        s.finite(),
        s.len() <= 12,
        s.subset_of(all_notes()),
{
    assert(all_notes().finite());
    assert(all_notes().len() == 12);
    assert forall|n: Note| s.contains(n) implies all_notes().contains(n) by {
        match n {
            Note::C => {},
            Note::Cs => {},
            Note::D => {},
            Note::Ds => {},
            Note::E => {},
            Note::F => {},
            Note::Fs => {},
            Note::G => {},
            Note::Gs => {},
            Note::A => {},
            Note::As => {},
            Note::B => {},
        }
    }
    lemma_len_subset(s, all_notes());
}

/// A set of pitch classes, kept as the set of their chromatic positions.
pub struct NoteSet {
    positions: HashSet<u8>,
}

impl View for NoteSet {
    type V = Set<Note>;

    closed spec fn view(&self) -> Set<Note> {
        Set::new(|n: Note| self.positions@.contains(n.ordinal() as u8))
    }
}

impl NoteSet {
    #[verifier::type_invariant]
    spec fn positions_in_range(&self) -> bool {
        forall|k: u8| self.positions@.contains(k) ==> k < 12
    }

    /// The set of the pitch classes that occur in `notes`.
    pub fn from_notes(notes: &Vec<Note>) -> (s: NoteSet)
        ensures
            s@ == notes@.to_set(),
    {
        broadcast use vstd::std_specs::hash::group_hash_axioms;

        let mut positions: HashSet<u8> = HashSet::new();
        let mut i: usize = 0;
        while i < notes.len()
            invariant
                i <= notes.len(),
                forall|k: u8|
                    positions@.contains(k) <==> exists|j: int|
                        0 <= j < i && #[trigger] notes@[j].ordinal() == k,
            decreases notes.len() - i,
        {
            let k: u8 = notes[i].position() as u8;
            positions.insert(k);
            i += 1;
        }
        let s = NoteSet { positions };
        assert(s@ =~= notes@.to_set()) by {
            assert forall|n: Note| notes@.to_set().contains(n) implies s@.contains(n) by {
                let j = choose|j: int| 0 <= j < notes@.len() && notes@[j] == n;
                assert(notes@[j].ordinal() == n.ordinal());
            }
        }
        s
    }

    /// Whether `note` is a member.
    pub fn contains(&self, note: Note) -> (b: bool)
        ensures
            b == self@.contains(note),
    {
        broadcast use vstd::std_specs::hash::group_hash_axioms;

        let k: u8 = note.position() as u8;
        self.positions.contains(&k)
    }

    /// The number of members.
    pub fn len(&self) -> (n: usize)
        ensures
            self@.finite(),
            n == self@.len(),
            n <= 12,
    {
        broadcast use vstd::std_specs::hash::group_hash_axioms;

        proof {
            use_type_invariant(self);
            lemma_note_sets_are_small(self@);
            let position = |n: Note| n.ordinal() as u8;
            assert(self@.map(position) =~= self.positions@) by {
                assert forall|k: u8| self.positions@.contains(k) implies self@.map(position).contains(
                    k,
                ) by {
                    let n = Note::at(k as int);
                    assert(self@.contains(n) && position(n) == k);
                }
            }
            lemma_map_size(self@, self.positions@, position);
        }
        self.positions.len()
    }
}

} // verus!
