//! One quiz round's decisions: where to ask, and what a typed line means.

use rand::Rng;
use vstd::prelude::*;

use crate::board::{is_instrument_string, string_at, MAX_FRET, STRING_COUNT};
use crate::guess::{guess_names, note_equals};
use crate::note::{note_from_string_and_fret, resolved};
use crate::scale::is_note;

verus! {

/// What a typed line means in a round.
#[derive(Debug, Clone, Copy, PartialEq, Eq, Structural)]
pub enum Reply {
    /// The line was empty: the session ends.
    Stop,
    /// The guess names the note: the round is won.
    Correct,
    /// The guess does not name the note, or no note could be determined:
    /// the round asks again.
    Incorrect,
}

/// The meaning of the typed line `response` when the note at fret `fret` of
/// string `string` is asked.
pub open spec fn reply_for(string: Seq<char>, fret: int, response: Seq<char>) -> Reply {
    if !is_note(string) {
        Reply::Incorrect
    } else if response.len() == 0 {
        Reply::Stop
    } else if guess_names(resolved(string, fret), response) {
        Reply::Correct
    } else {
        Reply::Incorrect
    }
}

/// Relies on `rand::thread_rng` and `Rng::gen_range`: a value drawn from
/// the inclusive range `0..=max`, which is never empty.
#[verifier::external_body]
fn random_up_to(max: u8) -> (r: u8)
    ensures
        r <= max,
{
    rand::thread_rng().gen_range(0..=max)
}

/// A fret drawn at random, open string included.
pub fn random_fret() -> (r: u8)
    ensures
        r <= MAX_FRET,
{
    random_up_to(MAX_FRET)
}

/// One of the instrument's strings, drawn at random.
pub fn random_string() -> (r: &'static str)
    ensures
        is_instrument_string(r@),
{
    let k = random_up_to((STRING_COUNT - 1) as u8);
    string_at(k as usize)
}

/// Judges the trimmed line `response` typed when the note at fret `fret` of
/// string `string` is asked: an empty line stops, a guess that names the
/// note is correct, anything else (or a string that names no note) is not.
pub fn judge(string: &str, fret: u8, response: &str) -> (r: Reply)
    ensures
        r == reply_for(string@, fret as int, response@),
{
    match note_from_string_and_fret(string, fret) {
        Err(_) => Reply::Incorrect,
        Ok(note) => {
            if response.is_empty() {
                Reply::Stop
            } else if note_equals(note, response) {
                Reply::Correct
            } else {
                Reply::Incorrect
            }
        },
    }
}

} // verus!
