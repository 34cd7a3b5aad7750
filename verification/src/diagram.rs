//! The fretboard diagram: what is drawn at each fret of each string, and the
//! text that shows it.

use crate::guitar::{Guitar, GuitarView};
use crate::note::Note;
use crate::note_set::NoteSet;
use crate::scale::Scale;
use crate::text::{decimal, decimal_string, join, joined};
use vstd::prelude::*;

verus! {

/// What is drawn at one fret of one string.
#[derive(Debug, Clone, Copy, PartialEq, Eq, Structural)]
pub enum Cell {
    /// The pitch class does not belong to the scale.
    Outside,
    /// The pitch class is the root of the scale.
    Root(Note),
    /// A member of the scale other than the root, shown by its name.
    Named(Note),
    /// A member of the scale other than the root, shown by a mark.
    Marked,
}

/// The text that is put before and after the name of a root to set it off.
#[derive(Debug)]
pub struct Emphasis {
    pub start: String,
    pub end: String,
}

/// What an [`Emphasis`] stands for: the characters of its two texts.
pub struct EmphasisView {
    pub start: Seq<char>,
    pub end: Seq<char>,
}

impl View for Emphasis {
    type V = EmphasisView;

    open spec fn view(&self) -> EmphasisView {
        EmphasisView { start: self.start@, end: self.end@ }
    }
}

impl Cell {
    /// The cell for `note` in a scale with the given root and members. That
    /// a pitch class lies outside the scale is decided first, then that it is
    /// the root, and only then does `all_note_names` choose between a name
    /// and a mark.
    pub open spec fn of(note: Note, root: Note, members: Set<Note>, all_note_names: bool) -> Cell {
        if !members.contains(note) {
            Cell::Outside
        } else if note == root {
            Cell::Root(note)
        } else if all_note_names {
            Cell::Named(note)
        } else {
            Cell::Marked
        }
    }

    /// The text of the cell.
    pub open spec fn text(self, emphasis: EmphasisView) -> Seq<char> {
        match self {
            Cell::Outside => "|"@,
            Cell::Root(note) => emphasis.start + note.label() + emphasis.end,
            Cell::Named(note) => note.label(),
            Cell::Marked => "O"@,
        }
    }

    /// The cell for `note` in a scale with the given root and members.
    pub fn classify(note: Note, root: Note, members: &NoteSet, all_note_names: bool) -> (r: Cell)
        ensures
            r == Cell::of(note, root, members@, all_note_names),
    {
        if !members.contains(note) {
            Cell::Outside
        } else if note == root {
            Cell::Root(note)
        } else if all_note_names {
            Cell::Named(note)
        } else {
            Cell::Marked
        }
    }

    /// The text of the cell.
    pub fn render(&self, emphasis: &Emphasis) -> (r: String)
        ensures
            r@ == self.text(emphasis@),
    {
        match self {
            Cell::Outside => String::from_str("|"),
            Cell::Root(note) => {
                let mut r = emphasis.start.clone();
                r.append(note.name());
                r.append(emphasis.end.as_str());
                r
            },
            Cell::Named(note) => String::from_str(note.name()),
            Cell::Marked => String::from_str("O"),
        }
    }
}

/// One string of the diagram.
#[derive(Debug)]
pub struct Row {
    /// The number of the string, counted from 1.
    pub number: usize,
    /// The pitch class of the open string.
    pub open: Note,
    /// The cells of the fret window, from its first fret on.
    pub cells: Vec<Cell>,
}

/// What a [`Row`] stands for.
pub struct RowView {
    pub number: nat,
    pub open: Note,
    pub cells: Seq<Cell>,
}

impl View for Row {
    type V = RowView;

    open spec fn view(&self) -> RowView {
        RowView { number: self.number as nat, open: self.open, cells: self.cells@ }
    }
}

impl RowView {
    /// The texts of the cells, in order.
    pub open spec fn cell_texts(self, emphasis: EmphasisView) -> Seq<Seq<char>> {
        self.cells.map_values(|cell: Cell| cell.text(emphasis))
    }

    /// The text of the row: the number of the string, the name of its open
    /// note in brackets, a tab, the cells with a tab between neighbours, and
    /// a line feed.
    pub open spec fn text(self, emphasis: EmphasisView) -> Seq<char> {
        decimal(self.number) + "("@ + self.open.label() + ")\t"@ + joined(
            self.cell_texts(emphasis),
            "\t"@,
        ) + "\n"@
    }
}

impl Row {
    /// The text of the row.
    pub fn render(&self, emphasis: &Emphasis) -> (r: String)
        ensures
            r@ == self@.text(emphasis@),
    {
        let mut r = decimal_string(self.number);
        r.append("(");
        r.append(self.open.name());
        r.append(")\t");
        let ghost head = r@;
        let ghost texts = self@.cell_texts(emphasis@);
        let mut i: usize = 0;
        while i < self.cells.len()
            invariant
                i <= self.cells.len(),
                texts == self@.cell_texts(emphasis@),
                r@ == head + joined(texts.take(i as int), "\t"@),
            decreases self.cells.len() - i,
        {
            let cell = self.cells[i].render(emphasis);
            if i > 0 {
                r.append("\t");
            }
            r.append(cell.as_str());
            proof {
                let done = texts.take(i + 1);
                assert(done.drop_last() =~= texts.take(i as int));
                assert(done.last() == cell@);
                assert(r@ =~= head + joined(done, "\t"@));
            }
            i += 1;
        }
        r.append("\n");
        proof {
            assert(texts.take(i as int) =~= texts);
            assert(r@ =~= self@.text(emphasis@));
        }
        r
    }
}

/// All that decides one diagram: the scale, the instrument, the fret at which
/// the window starts, and whether the members of the scale are shown by name.
/// The window ends before the fret that the instrument's `notes_per_string`
/// names.
#[derive(Debug)]
pub struct Diagram {
    pub scale: Scale,
    pub guitar: Guitar,
    pub frets_start: usize,
    pub all_note_names: bool,
}

/// What a [`Diagram`] stands for.
pub struct DiagramView {
    pub scale: Scale,
    pub guitar: GuitarView,
    pub frets_start: nat,
    pub all_note_names: bool,
}

impl View for Diagram {
    type V = DiagramView;

    open spec fn view(&self) -> DiagramView {
        DiagramView {
            scale: self.scale,
            guitar: self.guitar@,
            frets_start: self.frets_start as nat,
            all_note_names: self.all_note_names,
        }
    }
}

impl DiagramView {
    /// The number of frets in the window; none where it starts past its end.
    pub open spec fn width(self) -> nat {
        if self.frets_start <= self.guitar.notes_per_string {
            (self.guitar.notes_per_string - self.frets_start) as nat
        } else {
            0
        }
    }

    /// The cell at `column` of the window on the string at index `string`:
    /// that of the open note raised by one semitone for each fret.
    pub open spec fn cell(self, string: int, column: int) -> Cell {
        Cell::of(
            self.guitar.open_notes[string].offset(self.frets_start + column),
            self.scale.start_note,
            self.scale.members(),
            self.all_note_names,
        )
    }

    /// The `k`-th row from the top. The last string stands at the top and the
    /// first at the bottom.
    pub open spec fn row(self, k: int) -> RowView {
        let string = self.guitar.open_notes.len() - 1 - k;
        RowView {
            number: (string + 1) as nat,
            open: self.guitar.open_notes[string],
            cells: Seq::new(self.width(), |column: int| self.cell(string, column)),
        }
    }

    /// The text of the first `count` rows.
    pub open spec fn rows_text(self, count: int, emphasis: EmphasisView) -> Seq<char>
        decreases count,
    {
        if count <= 0 {
            Seq::empty()
        } else {
            self.rows_text(count - 1, emphasis) + self.row(count - 1).text(emphasis)
        }
    }

    /// The text above the grid: the name of the scale, its degrees in order,
    /// and an empty line.
    pub open spec fn heading(self) -> Seq<char> {
        "SCALE: "@ + self.scale.label() + "\nNOTES: "@ + joined(
            self.scale.degrees().map_values(|n: Note| n.label()),
            ", "@,
        ) + "\n\n"@
    }

    /// The text of the whole diagram: the heading, then the rows.
    pub open spec fn text(self, emphasis: EmphasisView) -> Seq<char> {
        self.heading() + self.rows_text(self.guitar.open_notes.len() as int, emphasis)
    }
}

impl Diagram {
    /// The rows of the grid from top to bottom.
    pub fn rows(&self) -> (r: Vec<Row>)
        ensures
            r@.len() == self@.guitar.open_notes.len(),
            forall|k: int| 0 <= k < r@.len() ==> (#[trigger] r@[k])@ == self@.row(k),
    {
        let members = self.scale.notes();
        let count = self.guitar.strings.len();
        let mut rows: Vec<Row> = Vec::new();
        let mut k: usize = 0;
        while k < count
            invariant
                k <= count,
                count == self.guitar.strings@.len(),
                members@ == self.scale.members(),
                rows@.len() == k,
                forall|i: int| 0 <= i < k ==> (#[trigger] rows@[i])@ == self@.row(i),
            decreases count - k,
        {
            let string = count - 1 - k;
            let open = self.guitar.strings[string].start;
            let mut cells: Vec<Cell> = Vec::new();
            let mut fret = self.frets_start;
            while fret < self.guitar.notes_per_string
                invariant
                    self.frets_start <= fret,
                    fret <= self.guitar.notes_per_string || fret == self.frets_start,
                    string < self.guitar.strings@.len(),
                    open == self@.guitar.open_notes[string as int],
                    members@ == self.scale.members(),
                    cells@.len() == fret - self.frets_start,
                    forall|j: int|
                        0 <= j < cells@.len() ==> cells@[j] == self@.cell(string as int, j),
                decreases self.guitar.notes_per_string - fret,
            {
                let note = open.cycle_from(fret);
                cells.push(
                    Cell::classify(note, self.scale.start_note, &members, self.all_note_names),
                );
                fret += 1;
            }
            let row = Row { number: string + 1, open, cells };
            assert(row@.cells =~= self@.row(k as int).cells);
            rows.push(row);
            k += 1;
        }
        rows
    }

    /// The text above the grid.
    pub fn heading(&self) -> (r: String)
        ensures
            r@ == self@.heading(),
    {
        let list = self.scale.notes_list();
        let mut names: Vec<&'static str> = Vec::new();
        let mut i: usize = 0;
        while i < list.len()
            invariant
                i <= list.len(),
                names@.len() == i,
                forall|j: int| 0 <= j < i ==> (#[trigger] names@[j])@ == list@[j].label(),
            decreases list.len() - i,
        {
            names.push(list[i].name());
            i += 1;
        }
        proof {
            reveal_strlit(", ");
            vstd::string::is_ascii_spec_bytes(", ");
            assert(names@.len() == 8);
            assert(names@.map_values(|s: &'static str| s@) =~= self.scale.degrees().map_values(
                |n: Note| n.label(),
            ));
        }
        let notes = join(&names, ", ");
        let mut r = String::from_str("SCALE: ");
        r.append(self.scale.title().as_str());
        r.append("\nNOTES: ");
        r.append(notes.as_str());
        r.append("\n\n");
        assert(r@ =~= self@.heading());
        r
    }

    /// The text of the whole diagram.
    pub fn render(&self, emphasis: &Emphasis) -> (r: String)
        ensures
            r@ == self@.text(emphasis@),
    {
        let rows = self.rows();
        let mut r = self.heading();
        let mut k: usize = 0;
        while k < rows.len()
            invariant
                k <= rows.len(),
                rows@.len() == self@.guitar.open_notes.len(),
                forall|i: int| 0 <= i < rows@.len() ==> (#[trigger] rows@[i])@ == self@.row(i),
                r@ == self@.heading() + self@.rows_text(k as int, emphasis@),
            decreases rows.len() - k,
        {
            let line = rows[k].render(emphasis);
            r.append(line.as_str());
            assert(r@ =~= self@.heading() + self@.rows_text(k + 1, emphasis@));
            k += 1;
        }
        r
    }
}

/// The text of a diagram is decided by what the diagram and the emphasis
/// stand for: equal configurations have equal texts, whichever values hold
/// them.
pub proof fn lemma_text_is_determined(a: Diagram, b: Diagram, ea: Emphasis, eb: Emphasis)
    requires
        a@ == b@,
        ea@ == eb@,
    ensures
        a@.text(ea@) == b@.text(eb@),
{
}

} // verus!
