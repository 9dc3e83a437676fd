//! The note sounded at a fret: chromatic transposition of an open string.

use vstd::prelude::*;

use crate::scale::{index_of, is_note, lemma_note_index, note_at, note_index, scale, SCALE_LEN};

verus! {

/// Why a note could not be resolved.
#[derive(Debug, Clone, Copy, PartialEq, Eq, Structural)]
pub enum NoteError {
    /// The open-string name is not one of the twelve canonical note names.
    NotFound,
}

/// The note `fret` semitones above the open-string note `s`.
pub open spec fn resolved(s: Seq<char>, fret: int) -> Seq<char> {
    scale()[(note_index(s) + fret) % 12]
}

/// The note at fret `fret` of the string tuned to `string`.
pub fn note_from_string_and_fret(string: &str, fret: u8) -> (r: Result<&'static str, NoteError>)
    ensures
        r is Ok <==> is_note(string@),
        r is Ok ==> r->Ok_0@ == resolved(string@, fret as int),
        r is Err ==> r->Err_0 == NoteError::NotFound,
{
    match index_of(string) {
        None => Err(NoteError::NotFound),
        Some(index) => {
            proof {
                lemma_note_index(string@);
            }
            Ok(note_at((index + fret as usize) % SCALE_LEN))
        },
    }
}

/// Every fret of a string tuned to a canonical note sounds a canonical note,
/// and twelve frets higher sounds the same note again.
pub proof fn lemma_resolved_octave(s: Seq<char>, fret: nat)
    requires
        is_note(s),
    ensures
        is_note(resolved(s, fret as int)),
        resolved(s, fret + 12int) == resolved(s, fret as int),
{
    lemma_note_index(s);
    let k = (note_index(s) + fret) % 12;
    lemma_note_index(scale()[k]);
    assert((note_index(s) + fret + 12) % 12 == k);
}

} // verus!
