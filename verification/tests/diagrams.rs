use fretboard::text::decimal_string;
use fretboard::{Cell, Diagram, Emphasis, Guitar, Note, NoteSet, Row, Scale, ScaleMode, Tuning};

fn plain() -> Emphasis {
    Emphasis { start: String::new(), end: String::new() }
}

fn bright() -> Emphasis {
    Emphasis { start: String::from("\x1b[93m"), end: String::from("\x1b[0m") }
}

fn c_major_on_fourths(frets_start: usize, frets_end: usize, all_note_names: bool) -> Diagram {
    Diagram {
        scale: Scale { start_note: Note::C, mode: ScaleMode::Major },
        guitar: Guitar::from_tuning(6, Note::E, frets_end, Tuning::Fourths),
        frets_start,
        all_note_names,
    }
}

#[test]
fn decimal_numerals() {
    assert_eq!(decimal_string(0), "0");
    assert_eq!(decimal_string(7), "7");
    assert_eq!(decimal_string(10), "10");
    assert_eq!(decimal_string(109), "109");
    assert_eq!(decimal_string(12345), "12345");
    assert_eq!(decimal_string(usize::MAX), format!("{}", usize::MAX));
}

#[test]
fn cell_precedence() {
    let members: NoteSet = NoteSet::from_notes(&vec![Note::C, Note::E, Note::G]);
    assert_eq!(Cell::classify(Note::D, Note::C, &members, false), Cell::Outside);
    assert_eq!(Cell::classify(Note::D, Note::C, &members, true), Cell::Outside);
    assert_eq!(Cell::classify(Note::C, Note::C, &members, false), Cell::Root(Note::C));
    assert_eq!(Cell::classify(Note::C, Note::C, &members, true), Cell::Root(Note::C));
    assert_eq!(Cell::classify(Note::E, Note::C, &members, true), Cell::Named(Note::E));
    assert_eq!(Cell::classify(Note::E, Note::C, &members, false), Cell::Marked);
}

#[test]
fn a_root_outside_the_members_is_outside() {
    let members: NoteSet = NoteSet::from_notes(&vec![Note::E, Note::G]);
    assert_eq!(Cell::classify(Note::C, Note::C, &members, true), Cell::Outside);
}

#[test]
fn cell_texts() {
    assert_eq!(Cell::Outside.render(&bright()), "|");
    assert_eq!(Cell::Marked.render(&bright()), "O");
    assert_eq!(Cell::Named(Note::Fs).render(&bright()), "F#");
    assert_eq!(Cell::Root(Note::Fs).render(&bright()), "\x1b[93mF#\x1b[0m");
    assert_eq!(Cell::Root(Note::Fs).render(&plain()), "F#");
}

#[test]
fn open_e_string_in_c_major() {
    let rows: Vec<Row> = c_major_on_fourths(0, 3, false).rows();
    assert_eq!(rows.len(), 6);
    let lowest: &Row = &rows[5];
    assert_eq!(lowest.number, 1);
    assert_eq!(lowest.open, Note::E);
    assert_eq!(lowest.cells, vec![Cell::Marked, Cell::Marked, Cell::Outside]);
    let texts: Vec<String> = lowest.cells.iter().map(|c| c.render(&plain())).collect();
    assert_eq!(texts, vec!["O", "O", "|"]);
}

#[test]
fn rows_run_from_the_last_string_to_the_first() {
    let rows: Vec<Row> = c_major_on_fourths(0, 3, false).rows();
    let numbers: Vec<usize> = rows.iter().map(|r| r.number).collect();
    let opens: Vec<Note> = rows.iter().map(|r| r.open).collect();
    assert_eq!(numbers, vec![6, 5, 4, 3, 2, 1]);
    assert_eq!(opens, vec![Note::F, Note::C, Note::G, Note::D, Note::A, Note::E]);
    for row in &rows {
        assert_eq!(row.cells.len(), 3);
    }
}

#[test]
fn heading_names_the_scale_and_lists_its_degrees() {
    assert_eq!(
        c_major_on_fourths(0, 3, false).heading(),
        "SCALE: C Major\nNOTES: C, D, E, F, G, A, B, C\n\n"
    );
    let other: Diagram = Diagram {
        scale: Scale { start_note: Note::Fs, mode: ScaleMode::Major },
        guitar: Guitar::from_tuning(0, Note::E, 0, Tuning::Fourths),
        frets_start: 0,
        all_note_names: true,
    };
    assert_eq!(
        other.heading(),
        "SCALE: F# Major\nNOTES: F#, G#, A#, B, C#, D#, F, F#\n\n"
    );
}

#[test]
fn c_major_on_six_strings_in_fourths() {
    let expected: &str = "SCALE: C Major\n\
                          NOTES: C, D, E, F, G, A, B, C\n\
                          \n\
                          6(F)\tO\t|\tO\n\
                          5(C)\t\x1b[93mC\x1b[0m\t|\tO\n\
                          4(G)\tO\t|\tO\n\
                          3(D)\tO\t|\tO\n\
                          2(A)\tO\t|\tO\n\
                          1(E)\tO\tO\t|\n";
    assert_eq!(c_major_on_fourths(0, 3, false).render(&bright()), expected);
}

#[test]
fn all_note_names_shows_members_by_name() {
    let expected: &str = "SCALE: C Major\n\
                          NOTES: C, D, E, F, G, A, B, C\n\
                          \n\
                          6(F)\tF\t|\tG\n\
                          5(C)\t<C>\t|\tD\n\
                          4(G)\tG\t|\tA\n\
                          3(D)\tD\t|\tE\n\
                          2(A)\tA\t|\tB\n\
                          1(E)\tE\tF\t|\n";
    let angle: Emphasis = Emphasis { start: String::from("<"), end: String::from(">") };
    assert_eq!(c_major_on_fourths(0, 3, true).render(&angle), expected);
}

#[test]
fn window_starts_at_its_first_fret() {
    let rows: Vec<Row> = c_major_on_fourths(7, 10, true).rows();
    let lowest: &Row = &rows[5];
    assert_eq!(
        lowest.cells,
        vec![Cell::Named(Note::B), Cell::Root(Note::C), Cell::Outside]
    );
    assert_eq!(lowest.render(&plain()), "1(E)\tB\tC\t|\n");
}

#[test]
fn window_wraps_round_the_octave() {
    let rows: Vec<Row> = c_major_on_fourths(0, 14, false).rows();
    let lowest: &Row = &rows[5];
    assert_eq!(lowest.cells.len(), 14);
    assert_eq!(lowest.cells[12], lowest.cells[0]);
    assert_eq!(lowest.cells[13], lowest.cells[1]);
    assert_eq!(lowest.cells[8], Cell::Root(Note::C));
}

#[test]
fn a_window_that_starts_at_its_end_has_no_cells() {
    let diagram: Diagram = c_major_on_fourths(3, 3, false);
    for row in diagram.rows() {
        assert!(row.cells.is_empty());
    }
}

#[test]
fn a_window_that_starts_past_its_end_has_no_cells() {
    let diagram: Diagram = c_major_on_fourths(5, 2, false);
    let rows: Vec<Row> = diagram.rows();
    assert_eq!(rows.len(), 6);
    for row in &rows {
        assert!(row.cells.is_empty());
    }
    let expected: &str = "SCALE: C Major\n\
                          NOTES: C, D, E, F, G, A, B, C\n\
                          \n\
                          6(F)\t\n\
                          5(C)\t\n\
                          4(G)\t\n\
                          3(D)\t\n\
                          2(A)\t\n\
                          1(E)\t\n";
    assert_eq!(diagram.render(&bright()), expected);
}

#[test]
fn no_strings_leave_the_heading_alone() {
    let diagram: Diagram = Diagram {
        scale: Scale { start_note: Note::C, mode: ScaleMode::Major },
        guitar: Guitar::from_tuning(0, Note::E, 24, Tuning::Fourths),
        frets_start: 0,
        all_note_names: false,
    };
    assert!(diagram.rows().is_empty());
    assert_eq!(diagram.render(&bright()), diagram.heading());
}

#[test]
fn string_numbers_are_decimal() {
    let diagram: Diagram = Diagram {
        scale: Scale { start_note: Note::A, mode: ScaleMode::Major },
        guitar: Guitar::from_tuning(12, Note::C, 1, Tuning::ScaleCentered),
        frets_start: 0,
        all_note_names: true,
    };
    let text: String = diagram.render(&plain());
    let lines: Vec<&str> = text.lines().collect();
    assert_eq!(lines.len(), 15);
    assert_eq!(lines[3], "12(G#)\tG#");
    assert_eq!(lines[4], "11(E)\tE");
    assert_eq!(lines[5], "10(C)\t|");
    assert_eq!(lines[14], "1(C)\t|");
}

#[test]
fn rendering_twice_gives_the_same_text() {
    let first: String = c_major_on_fourths(0, 24, false).render(&bright());
    let second: String = c_major_on_fourths(0, 24, false).render(&bright());
    assert_eq!(first.as_bytes(), second.as_bytes());
    let diagram: Diagram = c_major_on_fourths(2, 9, true);
    assert_eq!(diagram.render(&plain()), diagram.render(&plain()));
}

#[test]
fn render_is_the_heading_followed_by_the_rows() {
    let diagram: Diagram = c_major_on_fourths(0, 24, true);
    let mut expected: String = diagram.heading();
    for row in diagram.rows() {
        expected.push_str(&row.render(&bright()));
    }
    assert_eq!(diagram.render(&bright()), expected);
}
