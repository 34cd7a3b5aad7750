use fretboard::Note;

const ALL: [Note; 12] = [
    Note::C,
    Note::Cs,
    Note::D,
    Note::Ds,
    Note::E,
    Note::F,
    Note::Fs,
    Note::G,
    Note::Gs,
    Note::A,
    Note::As,
    Note::B,
];

#[test]
fn test_offset() {
    assert_eq!(Note::C.offset_by(1), Note::Cs);
    assert_eq!(Note::C.offset_by(-1), Note::B);
}

#[test]
fn offset_wraps_in_both_directions() {
    assert_eq!(Note::B.offset_by(1), Note::C);
    assert_eq!(Note::A.offset_by(5), Note::D);
    assert_eq!(Note::D.offset_by(-5), Note::A);
    assert_eq!(Note::E.offset_by(25), Note::F);
    assert_eq!(Note::E.offset_by(-25), Note::Ds);
}

#[test]
fn offset_is_undone_by_the_opposite_offset() {
    let offsets: [i32; 9] = [0, 1, -1, 7, 12, 13, -100, 1_000_003, i32::MAX];
    for p in ALL {
        for n in offsets {
            assert_eq!(p.offset_by(n).offset_by(-n), p);
        }
    }
}

#[test]
fn offset_has_period_twelve_and_identity_at_zero() {
    for p in ALL {
        assert_eq!(p.offset_by(0), p);
        assert_eq!(p.offset_by(12), p);
        assert_eq!(p.offset_by(-12), p);
        assert_eq!(p.offset_by(5 + 12), p.offset_by(5));
    }
}

#[test]
fn offset_takes_the_extremes_of_i32() {
    assert_eq!(Note::C.offset_by(i32::MAX), Note::G);
    assert_eq!(Note::C.offset_by(i32::MIN), Note::E);
    assert_eq!(Note::B.offset_by(i32::MIN), Note::Ds);
}

#[test]
fn cycle_counts_from_c() {
    assert_eq!(Note::cycle(0), Note::C);
    assert_eq!(Note::cycle(1), Note::Cs);
    assert_eq!(Note::cycle(11), Note::B);
    assert_eq!(Note::cycle(12), Note::C);
    assert_eq!(Note::cycle(31), Note::G);
    assert_eq!(Note::cycle(usize::MAX), Note::cycle(usize::MAX % 12));
}

#[test]
fn cycle_from_starts_at_its_note() {
    for p in ALL {
        assert_eq!(p.cycle_from(0), p);
    }
}

#[test]
fn cycle_from_visits_each_note_once_before_repeating() {
    for p in ALL {
        let mut seen: Vec<Note> = Vec::new();
        for i in 0..12usize {
            let n: Note = p.cycle_from(i);
            assert!(!seen.contains(&n));
            seen.push(n);
        }
        for q in ALL {
            assert!(seen.contains(&q));
        }
        for i in 0..24usize {
            assert_eq!(p.cycle_from(i + 12), p.cycle_from(i));
        }
    }
}

#[test]
fn cycle_from_follows_the_chromatic_order() {
    assert_eq!(Note::A.cycle_from(1), Note::As);
    assert_eq!(Note::A.cycle_from(2), Note::B);
    assert_eq!(Note::A.cycle_from(3), Note::C);
    assert_eq!(Note::A.cycle_from(usize::MAX), Note::A.cycle_from(usize::MAX % 12));
}

#[test]
fn cycle_from_can_be_started_again() {
    let first: Vec<Note> = (0..5usize).map(|i| Note::G.cycle_from(i)).collect();
    let second: Vec<Note> = (0..5usize).map(|i| Note::G.cycle_from(i)).collect();
    assert_eq!(first, vec![Note::G, Note::Gs, Note::A, Note::As, Note::B]);
    assert_eq!(first, second);
}

#[test]
fn position_is_the_place_in_the_chromatic_order() {
    for (i, p) in ALL.iter().enumerate() {
        assert_eq!(p.position(), i);
        assert_eq!(Note::cycle(i), *p);
    }
}

#[test]
fn names_use_sharps() {
    let names: Vec<&str> = ALL.iter().map(|p| p.name()).collect();
    assert_eq!(
        names,
        vec!["C", "C#", "D", "D#", "E", "F", "F#", "G", "G#", "A", "A#", "B"]
    );
}

#[test]
fn notes_are_ordered_chromatically() {
    for i in 0..12usize {
        for j in 0..12usize {
            assert_eq!(ALL[i] < ALL[j], i < j);
            assert_eq!(ALL[i] <= ALL[j], i <= j);
            assert_eq!(ALL[i] == ALL[j], i == j);
            assert_eq!(ALL[i].partial_cmp(&ALL[j]), i.partial_cmp(&j));
            assert_eq!(ALL[i].cmp(&ALL[j]), i.cmp(&j));
        }
    }
    let mut shuffled: Vec<Note> = vec![Note::G, Note::C, Note::B, Note::Ds, Note::C];
    shuffled.sort();
    assert_eq!(shuffled, vec![Note::C, Note::C, Note::Ds, Note::G, Note::B]);
}
