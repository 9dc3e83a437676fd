//! A fretboard note trainer: the chromatic scale, the note found at a fret,
//! enharmonic-aware matching of a typed guess, and the ASCII fretboard diagram.

pub mod scale;
pub mod note;
pub mod guess;
pub mod board;
pub mod quiz;
