//! Judging a typed guess against the expected note, with enharmonic spellings
//! and a capitalised first letter.

use vstd::prelude::*;

use crate::scale::{equivalent, equivalent_of, lemma_equivalent_involution, str_eq};

verus! {

/// Longest guess, in characters, that can name a note.
pub const MAX_GUESS_LEN: usize = 2;

/// What `char::to_uppercase` yields for a character.
pub uninterp spec fn uppercase_of(c: char) -> Seq<char>;

/// Relies on `char::to_uppercase`: the uppercase mapping of `c`, one or more
/// characters that depend on `c` alone.
#[verifier::external_body]
fn uppercase(c: char) -> (r: String)
    ensures
        r@ == uppercase_of(c),
{
    c.to_uppercase().to_string()
}

/// A guess with its first character in upper case and the rest unchanged.
pub open spec fn normalized(guess: Seq<char>) -> Seq<char> {
    if guess.len() == 0 {
        guess
    } else {
        uppercase_of(guess[0]) + guess.subrange(1, guess.len() as int)
    }
}

/// Whether a normalized guess names `note`, in its own spelling or its
/// enharmonic one.
pub open spec fn is_match(note: Seq<char>, guess: Seq<char>) -> bool {
    note == guess || equivalent(note) == Some(guess)
}

/// Whether a raw guess names `note`.
pub open spec fn guess_names(note: Seq<char>, guess: Seq<char>) -> bool {
    guess.len() <= MAX_GUESS_LEN && is_match(note, normalized(guess))
}

/// Whether the already normalized guess `adjusted` names `note`.
pub fn note_matches(note: &str, adjusted: &str) -> (r: bool)
    ensures
        r == is_match(note@, adjusted@),
{
    if str_eq(note, adjusted) {
        return true;
    }
    match equivalent_of(note) {
        Some(equiv) => str_eq(equiv, adjusted),
        None => false,
    }
}

/// Whether the guess `test` names `note`: at most two characters, compared
/// after upper-casing its first character, in either enharmonic spelling.
pub fn note_equals(note: &str, test: &str) -> (r: bool)
    ensures
        r == guess_names(note@, test@),
        test@.len() > MAX_GUESS_LEN ==> !r,
{
    let n = test.unicode_len();
    if n > MAX_GUESS_LEN {
        return false;
    }
    let mut adjusted = String::new();
    if n > 0 {
        adjusted = uppercase(test.get_char(0));
        let rest = test.substring_char(1, n);
        adjusted.append(rest);
    }
    assert(adjusted@ =~= normalized(test@));
    note_matches(note, adjusted.as_str())
}

/// Each spelling of an enharmonic pair is accepted for the other.
pub proof fn lemma_match_symmetric(sharp: Seq<char>, flat: Seq<char>)
    requires
        equivalent(sharp) == Some(flat),
    ensures
        is_match(sharp, flat),
        is_match(flat, sharp),
{
    lemma_equivalent_involution(sharp);
}

} // verus!
