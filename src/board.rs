//! The ASCII fretboard diagram: one line per string, one cell per fret, with
//! the asked position marked and the inlay dots drawn.

use vstd::prelude::*;

use crate::scale::str_eq;

verus! {

/// Highest fret of the instrument.
pub const MAX_FRET: u8 = 24;

/// Number of strings of the instrument.
pub const STRING_COUNT: usize = 5;

/// The open-string notes of the instrument, lowest first.
pub open spec fn instrument() -> Seq<Seq<char>> {
    seq![seq!['B'], seq!['E'], seq!['A'], seq!['D'], seq!['G']]
}

/// Whether `s` is one of the instrument's strings.
pub open spec fn is_instrument_string(s: Seq<char>) -> bool {
    exists|k: int| 0 <= k < instrument().len() && instrument()[k] == s
}

/// The open-string note of string `k`, lowest first.
pub fn string_at(k: usize) -> (r: &'static str)
    requires
        k < STRING_COUNT,
    ensures
        r@ == instrument()[k as int],
{
    proof {
        reveal_strlit("B");
        reveal_strlit("E");
        reveal_strlit("A");
        reveal_strlit("D");
        reveal_strlit("G");
        assert("B"@ =~= seq!['B']);
        assert("E"@ =~= seq!['E']);
        assert("A"@ =~= seq!['A']);
        assert("D"@ =~= seq!['D']);
        assert("G"@ =~= seq!['G']);
    }
    match k {
        0 => "B",
        1 => "E",
        2 => "A",
        3 => "D",
        _ => "G",
    }
}

/// Whether the diagram draws an inlay dot on string `s` at `fret`: the A
/// string at 3, 5, 7, 9, 15, 17, 19 and 21; the D and E strings at 12 and 24.
pub open spec fn is_reference_marker(s: Seq<char>, fret: int) -> bool {
    ||| s == seq!['A'] && (fret == 3 || fret == 5 || fret == 7 || fret == 9 || fret == 15
        || fret == 17 || fret == 19 || fret == 21)
    ||| (s == seq!['D'] || s == seq!['E']) && (fret == 12 || fret == 24)
}

/// The cell of the asked position.
pub open spec fn marked_cell() -> Seq<char> {
    seq!['-', 'X', '-', '|']
}

/// The cell of an inlay dot.
pub open spec fn dot_cell() -> Seq<char> {
    seq!['-', 'o', '-', '|']
}

/// A plain cell.
pub open spec fn plain_cell() -> Seq<char> {
    seq!['-', '-', '-', '|']
}

/// The cell drawn on string `s` at fret `i`, when `marked` at `mfret` is asked.
pub open spec fn cell(s: Seq<char>, marked: Seq<char>, mfret: int, i: int) -> Seq<char> {
    if s == marked && i == mfret {
        marked_cell()
    } else if is_reference_marker(s, i) {
        dot_cell()
    } else {
        plain_cell()
    }
}

/// The cells of frets 1 through `n` of string `s`.
pub open spec fn cells(s: Seq<char>, marked: Seq<char>, mfret: int, n: nat) -> Seq<char>
    decreases n,
{
    if n == 0 {
        Seq::empty()
    } else {
        cells(s, marked, mfret, (n - 1) as nat) + cell(s, marked, mfret, n as int)
    }
}

/// What stands at the nut of string `s`: its name, or `X` when its open
/// string is asked.
pub open spec fn head(s: Seq<char>, marked: Seq<char>, mfret: int) -> Seq<char> {
    if s == marked && mfret == 0 {
        seq!['X']
    } else {
        s
    }
}

/// The line of string `s`, newline included.
pub open spec fn line(s: Seq<char>, marked: Seq<char>, mfret: int) -> Seq<char> {
    head(s, marked, mfret) + seq!['-', '|'] + cells(s, marked, mfret, MAX_FRET as nat) + seq!['\n']
}

/// The lines of the `j` highest strings, highest first.
pub open spec fn top_lines(marked: Seq<char>, mfret: int, j: nat) -> Seq<char>
    decreases j,
{
    if j == 0 || j > STRING_COUNT {
        Seq::empty()
    } else {
        top_lines(marked, mfret, (j - 1) as nat) + line(
            instrument()[STRING_COUNT - j],
            marked,
            mfret,
        )
    }
}

/// The whole diagram: every string, highest first.
pub open spec fn board(marked: Seq<char>, mfret: int) -> Seq<char> {
    top_lines(marked, mfret, STRING_COUNT as nat)
}

/// Whether the diagram draws an inlay dot on string `s` at `fret`.
pub fn is_reference(s: &str, fret: u8) -> (r: bool)
    ensures
        r == is_reference_marker(s@, fret as int),
{
    proof {
        reveal_strlit("A");
        reveal_strlit("D");
        reveal_strlit("E");
        assert("A"@ =~= seq!['A']);
        assert("D"@ =~= seq!['D']);
        assert("E"@ =~= seq!['E']);
        assert(seq!['A'][0] != seq!['D'][0] && seq!['A'][0] != seq!['E'][0]);
    }
    if str_eq(s, "A") {
        fret == 3 || fret == 5 || fret == 7 || fret == 9 || fret == 15 || fret == 17 || fret == 19
            || fret == 21
    } else if str_eq(s, "D") || str_eq(s, "E") {
        fret == 12 || fret == 24
    } else {
        false
    }
}

/// The cell drawn on string `s` at fret `i`.
fn fret_cell(s: &str, marked: &str, fret: u8, i: u8) -> (r: &'static str)
    ensures
        r@ == cell(s@, marked@, fret as int, i as int),
{
    proof {
        reveal_strlit("-X-|");
        reveal_strlit("-o-|");
        reveal_strlit("---|");
        assert("-X-|"@ =~= marked_cell());
        assert("-o-|"@ =~= dot_cell());
        assert("---|"@ =~= plain_cell());
    }
    if str_eq(s, marked) && i == fret {
        "-X-|"
    } else if is_reference(s, i) {
        "-o-|"
    } else {
        "---|"
    }
}

/// The line of string `s`, newline included.
fn string_line(s: &str, marked: &str, fret: u8) -> (r: String)
    ensures
        r@ == line(s@, marked@, fret as int),
{
    proof {
        reveal_strlit("X");
        reveal_strlit("-|");
        reveal_strlit("\n");
        assert("X"@ =~= seq!['X']);
        assert("-|"@ =~= seq!['-', '|']);
        assert("\n"@ =~= seq!['\n']);
    }
    let mut out = String::new();
    if str_eq(s, marked) && fret == 0 {
        out.append("X");
    } else {
        out.append(s);
    }
    out.append("-|");
    let mut i: u8 = 1;
    while i <= MAX_FRET
        invariant
            1 <= i <= MAX_FRET + 1,
            out@ == head(s@, marked@, fret as int) + seq!['-', '|'] + cells(
                s@,
                marked@,
                fret as int,
                (i - 1) as nat,
            ),
        decreases MAX_FRET + 1 - i,
    {
        out.append(fret_cell(s, marked, fret, i));
        assert(out@ =~= head(s@, marked@, fret as int) + seq!['-', '|'] + cells(
            s@,
            marked@,
            fret as int,
            i as nat,
        ));
        i += 1;
    }
    out.append("\n");
    out
}

/// The fretboard diagram with string `string` at fret `fret` marked: the
/// strings from highest to lowest, each its name (or `X` when fret 0 is
/// asked on it), `-|`, and one four-character cell for each fret from 1 to
/// the last.
pub fn create_fretboard(string: &str, fret: u8) -> (r: String)
    ensures
        r@ == board(string@, fret as int),
{
    let mut out = String::new();
    let mut j: usize = 0;
    while j < STRING_COUNT
        invariant
            j <= STRING_COUNT,
            out@ == top_lines(string@, fret as int, j as nat),
        decreases STRING_COUNT - j,
    {
        let s = string_at(STRING_COUNT - 1 - j);
        out.append(string_line(s, string, fret).as_str());
        j += 1;
    }
    out
}


/// With fret 0 asked, the asked string's line starts with `X` in place of
/// its name, other strings keep their names, and no fret cell of any string
/// is drawn as the asked cell.
pub proof fn lemma_open_string_asked(marked: Seq<char>, s: Seq<char>)
    ensures
        head(marked, marked, 0) == seq!['X'],
        line(marked, marked, 0)[0] == 'X',
        s != marked ==> head(s, marked, 0) == s,
        forall|i: int| 1 <= i <= MAX_FRET ==> cell(s, marked, 0, i) != marked_cell(),
{
    assert(dot_cell()[1] != marked_cell()[1]);
    assert(plain_cell()[1] != marked_cell()[1]);
}

/// Where the asked position falls on an inlay dot, the asked cell is drawn,
/// not the dot.
pub proof fn lemma_marker_precedence(s: Seq<char>, fret: int)
    requires
        is_reference_marker(s, fret),
    ensures
        cell(s, s, fret, fret) == marked_cell(),
        cell(s, s, fret, fret) != dot_cell(),
{
    assert(dot_cell()[1] != marked_cell()[1]);
}

} // verus!
