//! A twelve-tone pitch-class model for fretted instruments: notes with
//! modular arithmetic, scales built from interval patterns, tunings that
//! derive open strings, and a text diagram of a fretboard.

pub mod diagram;
pub mod guitar;
pub mod note;
pub mod note_set;
pub mod scale;
pub mod text;

pub use diagram::{Cell, Diagram, Emphasis, Row};
pub use guitar::{Guitar, GuitarString, Tuning};
pub use note::Note;
pub use note_set::NoteSet;
pub use scale::{Scale, ScaleMode};
