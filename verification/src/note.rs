//! The twelve pitch classes of the chromatic octave and their arithmetic.

use std::cmp::Ordering;
use vstd::prelude::*;

verus! {

/// One of the twelve pitch classes, in chromatic order starting at C.
#[derive(Debug, Clone, Copy, PartialEq, Eq, Structural, Ord, Hash)]
pub enum Note {
    C,
    Cs,
    D,
    Ds,
    E,
    F,
    Fs,
    G,
    Gs,
    A,
    As,
    B,
}

impl Note {
    /// Position in the chromatic order: 0 for C up to 11 for B.
    pub open spec fn ordinal(self) -> int {
        match self {
            Note::C => 0,
            Note::Cs => 1,
            Note::D => 2,
            Note::Ds => 3,
            Note::E => 4,
            Note::F => 5,
            Note::Fs => 6,
            Note::G => 7,
            Note::Gs => 8,
            Note::A => 9,
            Note::As => 10,
            Note::B => 11,
        }
    }

    /// The pitch class found at position `i` of the chromatic circle.
    /// Positions wrap: `i` and `i + 12` name the same pitch class, and
    /// negative positions count backwards from C.
    pub open spec fn at(i: int) -> Note {
        let r = i % 12;
        if r == 0 {
            Note::C
        } else if r == 1 {
            Note::Cs
        } else if r == 2 {
            Note::D
        } else if r == 3 {
            Note::Ds
        } else if r == 4 {
            Note::E
        } else if r == 5 {
            Note::F
        } else if r == 6 {
            Note::Fs
        } else if r == 7 {
            Note::G
        } else if r == 8 {
            Note::Gs
        } else if r == 9 {
            Note::A
        } else if r == 10 {
            Note::As
        } else {
            Note::B
        }
    }

    /// The pitch class `n` semitones above `self` (below, for negative `n`).
    pub open spec fn offset(self, n: int) -> Note {
        Note::at(self.ordinal() + n)
    }

    /// Position in the chromatic order, as a machine integer.
    pub fn position(self) -> (r: usize)
        ensures
            r == self.ordinal(),
    {
        match self {
            Note::C => 0,
            Note::Cs => 1,
            Note::D => 2,
            Note::Ds => 3,
            Note::E => 4,
            Note::F => 5,
            Note::Fs => 6,
            Note::G => 7,
            Note::Gs => 8,
            Note::A => 9,
            Note::As => 10,
            Note::B => 11,
        }
    }

    /// The display name: the letter, followed by `#` for a sharp.
    pub open spec fn label(self) -> Seq<char> {
        match self {
            Note::C => seq!['C'],
            Note::Cs => seq!['C', '#'],
            Note::D => seq!['D'],
            Note::Ds => seq!['D', '#'],
            Note::E => seq!['E'],
            Note::F => seq!['F'],
            Note::Fs => seq!['F', '#'],
            Note::G => seq!['G'],
            Note::Gs => seq!['G', '#'],
            Note::A => seq!['A'],
            Note::As => seq!['A', '#'],
            Note::B => seq!['B'],
        }
    }

    /// The `n`-th element of the endless chromatic sequence that starts at C.
    pub fn cycle(n: usize) -> (r: Note)
        ensures
            r == Note::at(n as int),
    {
        let k: usize = n % 12;
        if k == 0 {
            Note::C
        } else if k == 1 {
            Note::Cs
        } else if k == 2 {
            Note::D
        } else if k == 3 {
            Note::Ds
        } else if k == 4 {
            Note::E
        } else if k == 5 {
            Note::F
        } else if k == 6 {
            Note::Fs
        } else if k == 7 {
            Note::G
        } else if k == 8 {
            Note::Gs
        } else if k == 9 {
            Note::A
        } else if k == 10 {
            Note::As
        } else {
            Note::B
        }
    }

    /// The `n`-th element of the endless chromatic sequence that starts at
    /// `self`: element 0 is `self`, element 1 the next semitone up, and so on
    /// round the circle.
    pub fn cycle_from(self, n: usize) -> (r: Note)
        ensures
            r == self.offset(n as int),
    {
        Note::cycle(self.position() + n % 12)
    }

    /// The pitch class `offset` semitones away, upwards for a positive
    /// `offset` and downwards for a negative one. Every `i32` is accepted.
    pub fn offset_by(self, offset: i32) -> (r: Note)
        ensures
            r == self.offset(offset as int),
    {
        match offset.checked_rem_euclid(12) {
            Some(steps) => self.cycle_from(steps as usize),
            None => self,
        }
    }

    /// The display name, in sharp notation.
    pub fn name(self) -> (r: &'static str)
        ensures
            r@ == self.label(),
    {
        proof {
            reveal_strlit("C");
            reveal_strlit("C#");
            reveal_strlit("D");
            reveal_strlit("D#");
            reveal_strlit("E");
            reveal_strlit("F");
            reveal_strlit("F#");
            reveal_strlit("G");
            reveal_strlit("G#");
            reveal_strlit("A");
            reveal_strlit("A#");
            reveal_strlit("B");
        }
        let r = match self {
            Note::C => "C",
            Note::Cs => "C#",
            Note::D => "D",
            Note::Ds => "D#",
            Note::E => "E",
            Note::F => "F",
            Note::Fs => "F#",
            Note::G => "G",
            Note::Gs => "G#",
            Note::A => "A",
            Note::As => "A#",
            Note::B => "B",
        };
        assert(r@ =~= self.label());
        r
    }
}

impl PartialOrd for Note {
    /// Notes compare by their position in the chromatic order.
    fn partial_cmp(&self, other: &Note) -> (r: Option<Ordering>) {
        let a = self.position();
        let b = other.position();
        if a < b {
            Some(Ordering::Less)
        } else if a == b {
            Some(Ordering::Equal)
        } else {
            Some(Ordering::Greater)
        }
    }
}

impl vstd::std_specs::cmp::PartialOrdSpecImpl for Note {
    open spec fn obeys_partial_cmp_spec() -> bool {
        true
    }

    open spec fn partial_cmp_spec(&self, other: &Note) -> Option<Ordering> {
        if self.ordinal() < other.ordinal() {
            Some(Ordering::Less)
        } else if self.ordinal() == other.ordinal() {
            Some(Ordering::Equal)
        } else {
            Some(Ordering::Greater)
        }
    }
}

/// `at` and `ordinal` are inverse to each other, up to whole turns of the
/// circle.
pub proof fn lemma_at_ordinal(p: Note, i: int)
    ensures
        Note::at(p.ordinal()) == p,
        Note::at(i).ordinal() == i % 12,
        0 <= p.ordinal() < 12,
{
}

/// Two offsets in a row amount to one offset by their sum.
pub proof fn lemma_offset_additive(p: Note, a: int, b: int)
    ensures
        p.offset(a).offset(b) == p.offset(a + b),
{
    lemma_at_ordinal(p, p.ordinal() + a);
    assert(((p.ordinal() + a) % 12 + b) % 12 == (p.ordinal() + a + b) % 12);
}

/// An offset is undone by the opposite offset.
pub proof fn lemma_offset_inverse(p: Note, n: int)
    ensures
        p.offset(n).offset(-n) == p,
{
    lemma_offset_additive(p, n, -n);
}

/// Offsets have period 12, and the offset by 0 changes nothing.
pub proof fn lemma_offset_period(p: Note, n: int)
    ensures
        p.offset(0) == p,
        p.offset(12) == p,
        p.offset(n + 12) == p.offset(n),
{
}

/// The chromatic sequence from `p` starts with `p`, holds twelve different
/// pitch classes in its first twelve places, holds any given pitch class `q`
/// at one of them, and repeats from the thirteenth place on.
pub proof fn lemma_cycle_visits_each_once(p: Note, q: Note)
    ensures
        p.offset(0) == p,
        forall|i: int, j: int| 0 <= i < j < 12 ==> p.offset(i) != p.offset(j),
        exists|i: int| 0 <= i < 12 && #[trigger] p.offset(i) == q,
        forall|n: int| #[trigger] p.offset(n + 12) == p.offset(n),
{
    assert forall|i: int, j: int| 0 <= i < j < 12 implies p.offset(i) != p.offset(j) by {
        lemma_at_ordinal(p, p.ordinal() + i);
        lemma_at_ordinal(p, p.ordinal() + j);
    }
    let k = (q.ordinal() - p.ordinal()) % 12;
    assert(p.offset(k) == q);
}

} // verus!
