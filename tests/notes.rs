use fretquiz::board::{create_fretboard, is_reference};
use fretquiz::guess::{note_equals, note_matches};
use fretquiz::note::{note_from_string_and_fret, NoteError};
use fretquiz::quiz::{judge, random_fret, random_string, Reply};
use fretquiz::scale::{equivalent_of, index_of, note_at, str_eq};

const SCALE: [&str; 12] = [
    "A", "A#", "B", "C", "C#", "D", "D#", "E", "F", "F#", "G", "G#",
];
const STRINGS: [&str; 5] = ["B", "E", "A", "D", "G"];

#[test]
fn test_note_from_string_and_fret() {
    assert_eq!(note_from_string_and_fret("B", 5).unwrap(), "E");
    assert_eq!(note_from_string_and_fret("E", 0).unwrap(), "E");
    assert_eq!(note_from_string_and_fret("A", 24).unwrap(), "A");
    assert_eq!(note_from_string_and_fret("D", 1).unwrap(), "D#");
    assert_eq!(note_from_string_and_fret("G", 16).unwrap(), "B");
}

#[test]
fn test_note_equals() {
    assert!(note_equals("B", "B"));
    assert!(note_equals("A#", "Bb"));
    assert!(!note_equals("B", "C"));
    assert!(note_equals("E", "e"));
    assert!(note_equals("F#", "gb"));
}

#[test]
fn test_create_fretboard() {
    assert_eq!(
        create_fretboard("B", 5),
        r#"G-|---|---|---|---|---|---|---|---|---|---|---|---|---|---|---|---|---|---|---|---|---|---|---|---|
D-|---|---|---|---|---|---|---|---|---|---|---|-o-|---|---|---|---|---|---|---|---|---|---|---|-o-|
A-|---|---|-o-|---|-o-|---|-o-|---|-o-|---|---|---|---|---|-o-|---|-o-|---|-o-|---|-o-|---|---|---|
E-|---|---|---|---|---|---|---|---|---|---|---|-o-|---|---|---|---|---|---|---|---|---|---|---|-o-|
B-|---|---|---|---|-X-|---|---|---|---|---|---|---|---|---|---|---|---|---|---|---|---|---|---|---|
"#
    );
}

#[test]
fn resolve_stays_in_scale_and_repeats_each_octave() {
    for s in STRINGS {
        for f in 0u8..=12 {
            let low = note_from_string_and_fret(s, f).unwrap();
            let high = note_from_string_and_fret(s, f + 12).unwrap();
            assert!(SCALE.contains(&low));
            assert_eq!(low, high);
        }
    }
}

#[test]
fn resolve_each_fret_is_one_semitone() {
    for (i, s) in SCALE.iter().enumerate() {
        for f in 0u8..=24 {
            let expected = SCALE[(i + f as usize) % 12];
            assert_eq!(note_from_string_and_fret(s, f).unwrap(), expected);
        }
    }
}

#[test]
fn resolve_large_offset() {
    assert_eq!(note_from_string_and_fret("A", 255).unwrap(), "C");
    assert_eq!(note_from_string_and_fret("G#", 1).unwrap(), "A");
}

#[test]
fn resolve_unknown_string_is_not_found() {
    assert_eq!(note_from_string_and_fret("H", 0), Err(NoteError::NotFound));
    assert_eq!(note_from_string_and_fret("b", 3), Err(NoteError::NotFound));
    assert_eq!(note_from_string_and_fret("Bb", 3), Err(NoteError::NotFound));
    assert_eq!(note_from_string_and_fret("", 0), Err(NoteError::NotFound));
}

#[test]
fn scale_lookups() {
    for (i, s) in SCALE.iter().enumerate() {
        assert_eq!(note_at(i), *s);
        assert_eq!(index_of(s), Some(i));
    }
    assert_eq!(index_of("a"), None);
    assert_eq!(index_of("A#b"), None);
}

#[test]
fn equivalents_are_paired_both_ways() {
    let pairs = [("A#", "Bb"), ("C#", "Db"), ("D#", "Eb"), ("F#", "Gb"), ("G#", "Ab")];
    for (sharp, flat) in pairs {
        assert_eq!(equivalent_of(sharp), Some(flat));
        assert_eq!(equivalent_of(flat), Some(sharp));
        assert!(note_equals(sharp, flat));
        assert!(note_equals(flat, sharp));
        assert!(note_matches(sharp, flat));
        assert!(note_matches(flat, sharp));
    }
    for natural in ["A", "B", "C", "D", "E", "F", "G"] {
        assert_eq!(equivalent_of(natural), None);
    }
}

#[test]
fn guess_case_only_first_character() {
    assert!(note_equals("F#", "f#"));
    assert!(note_equals("A#", "bb"));
    assert!(!note_equals("A#", "BB"));
    assert!(!note_equals("A#", "bB"));
    assert!(!note_matches("E", "e"));
    assert!(note_matches("E", "E"));
}

#[test]
fn guess_too_long_or_empty_fails() {
    assert!(!note_equals("A#", "A#x"));
    assert!(!note_equals("B", "bbb"));
    assert!(!note_equals("E", "   e"));
    assert!(!note_equals("E", ""));
}

#[test]
fn guess_mismatch_fails() {
    assert!(!note_equals("B", "C"));
    assert!(!note_equals("A#", "Ab"));
    assert!(!note_equals("C", "B#"));
}

#[test]
fn render_lines_have_fixed_width() {
    let board = create_fretboard("D", 7);
    let lines: Vec<&str> = board.lines().collect();
    assert_eq!(lines.len(), 5);
    for l in &lines {
        assert_eq!(l.len(), 99);
    }
    assert!(board.ends_with('\n'));
}

#[test]
fn render_open_string_marks_nut() {
    let board = create_fretboard("E", 0);
    let lines: Vec<&str> = board.lines().collect();
    assert!(lines[3].starts_with("X-|"));
    assert!(!board.contains("-X-|"));
    assert!(lines[0].starts_with("G-|"));
    assert!(lines[4].starts_with("B-|"));
    assert_eq!(
        lines[3],
        "X-|---|---|---|---|---|---|---|---|---|---|---|-o-|---|---|---|---|---|---|---|---|---|---|---|-o-|"
    );
}

#[test]
fn render_marker_takes_precedence_over_dot() {
    let board = create_fretboard("A", 3);
    let lines: Vec<&str> = board.lines().collect();
    assert_eq!(
        lines[2],
        "A-|---|---|-X-|---|-o-|---|-o-|---|-o-|---|---|---|---|---|-o-|---|-o-|---|-o-|---|-o-|---|---|---|"
    );
    let board = create_fretboard("E", 24);
    assert!(board.lines().nth(3).unwrap().ends_with("-X-|"));
}

#[test]
fn render_unknown_string_marks_nothing() {
    let board = create_fretboard("C", 0);
    assert!(!board.contains('X'));
    let board = create_fretboard("B", 25);
    assert!(!board.contains('X'));
}

#[test]
fn reference_markers() {
    assert!(is_reference("A", 3));
    assert!(is_reference("A", 21));
    assert!(!is_reference("A", 12));
    assert!(is_reference("D", 12));
    assert!(is_reference("E", 24));
    assert!(!is_reference("G", 12));
    assert!(!is_reference("B", 5));
}

#[test]
fn judge_replies() {
    assert_eq!(judge("B", 5, ""), Reply::Stop);
    assert_eq!(judge("B", 5, "e"), Reply::Correct);
    assert_eq!(judge("B", 5, "F"), Reply::Incorrect);
    assert_eq!(judge("D", 1, "eb"), Reply::Correct);
    assert_eq!(judge("H", 1, ""), Reply::Incorrect);
    assert_eq!(judge("H", 1, "A"), Reply::Incorrect);
}

#[test]
fn random_draws_in_range() {
    for _ in 0..200 {
        assert!(random_fret() <= 24);
        assert!(STRINGS.contains(&random_string()));
    }
}

#[test]
fn text_equality() {
    assert!(str_eq("A#", "A#"));
    assert!(!str_eq("A#", "A"));
    assert!(!str_eq("Ab", "A#"));
    assert!(str_eq("", ""));
}
