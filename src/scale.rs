//! The chromatic scale, its enharmonic spellings, and text comparison helpers.

use vstd::prelude::*;

verus! {

/// Number of notes in one octave of the chromatic scale.
pub const SCALE_LEN: usize = 12;

/// The chromatic scale from A, in its canonical (sharp) spellings.
pub open spec fn scale() -> Seq<Seq<char>> {
    seq![
        seq!['A'],
        seq!['A', '#'],
        seq!['B'],
        seq!['C'],
        seq!['C', '#'],
        seq!['D'],
        seq!['D', '#'],
        seq!['E'],
        seq!['F'],
        seq!['F', '#'],
        seq!['G'],
        seq!['G', '#'],
    ]
}

/// Position of a canonical note name in the scale, or -1 when the name is
/// not one of the twelve.
pub open spec fn note_index(s: Seq<char>) -> int {
    if s == seq!['A'] {
        0
    } else if s == seq!['A', '#'] {
        1
    } else if s == seq!['B'] {
        2
    } else if s == seq!['C'] {
        3
    } else if s == seq!['C', '#'] {
        4
    } else if s == seq!['D'] {
        5
    } else if s == seq!['D', '#'] {
        6
    } else if s == seq!['E'] {
        7
    } else if s == seq!['F'] {
        8
    } else if s == seq!['F', '#'] {
        9
    } else if s == seq!['G'] {
        10
    } else if s == seq!['G', '#'] {
        11
    } else {
        -1
    }
}

/// Whether `s` is one of the twelve canonical note names.
pub open spec fn is_note(s: Seq<char>) -> bool {
    note_index(s) >= 0
}

/// The other common spelling of a note, for the five notes that have two.
pub open spec fn equivalent(s: Seq<char>) -> Option<Seq<char>> {
    if s == seq!['A', '#'] {
        Some(seq!['B', 'b'])
    } else if s == seq!['B', 'b'] {
        Some(seq!['A', '#'])
    } else if s == seq!['C', '#'] {
        Some(seq!['D', 'b'])
    } else if s == seq!['D', 'b'] {
        Some(seq!['C', '#'])
    } else if s == seq!['D', '#'] {
        Some(seq!['E', 'b'])
    } else if s == seq!['E', 'b'] {
        Some(seq!['D', '#'])
    } else if s == seq!['F', '#'] {
        Some(seq!['G', 'b'])
    } else if s == seq!['G', 'b'] {
        Some(seq!['F', '#'])
    } else if s == seq!['G', '#'] {
        Some(seq!['A', 'b'])
    } else if s == seq!['A', 'b'] {
        Some(seq!['G', '#'])
    } else {
        None
    }
}

/// Character-wise equality of two string slices.
pub fn str_eq(a: &str, b: &str) -> (r: bool)
    ensures
        r == (a@ == b@),
{
    let n = a.unicode_len();
    if n != b.unicode_len() {
        return false;
    }
    let mut i: usize = 0;
    while i < n
        invariant
            n == a@.len(),
            n == b@.len(),
            i <= n,
            forall|j: int| 0 <= j < i ==> a@[j] == b@[j],
        decreases n - i,
    {
        if a.get_char(i) != b.get_char(i) {
            return false;
        }
        i += 1;
    }
    assert(a@ =~= b@);
    true
}

/// The note at position `i` of the scale.
pub fn note_at(i: usize) -> (r: &'static str)
    requires
        i < SCALE_LEN,
    ensures
        r@ == scale()[i as int],
{
    proof {
        reveal_strlit("A");
        reveal_strlit("A#");
        reveal_strlit("B");
        reveal_strlit("C");
        reveal_strlit("C#");
        reveal_strlit("D");
        reveal_strlit("D#");
        reveal_strlit("E");
        reveal_strlit("F");
        reveal_strlit("F#");
        reveal_strlit("G");
        reveal_strlit("G#");
    }
    match i {
        0 => "A",
        1 => "A#",
        2 => "B",
        3 => "C",
        4 => "C#",
        5 => "D",
        6 => "D#",
        7 => "E",
        8 => "F",
        9 => "F#",
        10 => "G",
        _ => "G#",
    }
}


/// The scale, element by element.
proof fn lemma_scale_elements()
    ensures
        scale().len() == 12,
        scale()[0] == seq!['A'],
        scale()[1] == seq!['A', '#'],
        scale()[2] == seq!['B'],
        scale()[3] == seq!['C'],
        scale()[4] == seq!['C', '#'],
        scale()[5] == seq!['D'],
        scale()[6] == seq!['D', '#'],
        scale()[7] == seq!['E'],
        scale()[8] == seq!['F'],
        scale()[9] == seq!['F', '#'],
        scale()[10] == seq!['G'],
        scale()[11] == seq!['G', '#'],
{
}

/// `note_index` finds the first, and only, place of a name in the scale.
pub proof fn lemma_note_index(s: Seq<char>)
    ensures
        -1 <= note_index(s) < 12,
        is_note(s) ==> scale()[note_index(s)] == s,
        forall|j: int| 0 <= j < 12 && scale()[j] == s ==> j == note_index(s),
{
    lemma_scale_elements();
    assert forall|j: int| 0 <= j < 12 && scale()[j] == s implies j == note_index(s) by {
        assert(s.len() == scale()[j].len());
        assert(s[0] == scale()[j][0]);
        if s.len() == 2 {
            assert(s[1] == scale()[j][1]);
        }
    }
}

/// Position of `note` in the scale, searched by exact match.
pub fn index_of(note: &str) -> (r: Option<usize>)
    ensures
        match r {
            Some(i) => i as int == note_index(note@),
            None => !is_note(note@),
        },
{
    proof {
        lemma_note_index(note@);
    }
    let mut i: usize = 0;
    while i < SCALE_LEN
        invariant
            i <= SCALE_LEN,
            forall|j: int| 0 <= j < i ==> scale()[j] != note@,
        decreases SCALE_LEN - i,
    {
        if str_eq(note, note_at(i)) {
            return Some(i);
        }
        i += 1;
    }
    None
}


/// The other spelling of `note`, if it has one.
pub fn equivalent_of(note: &str) -> (r: Option<&'static str>)
    ensures
        match r {
            Some(e) => equivalent(note@) == Some(e@),
            None => equivalent(note@) is None,
        },
{
    proof {
        reveal_strlit("A#");
        assert("A#"@ =~= seq!['A', '#']);
        reveal_strlit("Bb");
        assert("Bb"@ =~= seq!['B', 'b']);
        reveal_strlit("C#");
        assert("C#"@ =~= seq!['C', '#']);
        reveal_strlit("Db");
        assert("Db"@ =~= seq!['D', 'b']);
        reveal_strlit("D#");
        assert("D#"@ =~= seq!['D', '#']);
        reveal_strlit("Eb");
        assert("Eb"@ =~= seq!['E', 'b']);
        reveal_strlit("F#");
        assert("F#"@ =~= seq!['F', '#']);
        reveal_strlit("Gb");
        assert("Gb"@ =~= seq!['G', 'b']);
        reveal_strlit("G#");
        assert("G#"@ =~= seq!['G', '#']);
        reveal_strlit("Ab");
        assert("Ab"@ =~= seq!['A', 'b']);
    }
    if str_eq(note, "A#") {
        Some("Bb")
    } else if str_eq(note, "Bb") {
        Some("A#")
    } else if str_eq(note, "C#") {
        Some("Db")
    } else if str_eq(note, "Db") {
        Some("C#")
    } else if str_eq(note, "D#") {
        Some("Eb")
    } else if str_eq(note, "Eb") {
        Some("D#")
    } else if str_eq(note, "F#") {
        Some("Gb")
    } else if str_eq(note, "Gb") {
        Some("F#")
    } else if str_eq(note, "G#") {
        Some("Ab")
    } else if str_eq(note, "Ab") {
        Some("G#")
    } else {
        None
    }
}

/// Enharmonic spelling is an involution: the other spelling of the other
/// spelling of a note is the note itself.
pub proof fn lemma_equivalent_involution(s: Seq<char>)
    requires
        equivalent(s) is Some,
    ensures
        equivalent(equivalent(s)->0) == Some(s),
{
}

} // verus!
