use ear_trainer::error::InputError;
use ear_trainer::note_parse::{canonical_name, letter_to_offset, note_str_to_num};
use ear_trainer::text::digit_to_value;
use ear_trainer::note_parse::MAX_PITCH;

fn decode(name: &str) -> Result<u8, InputError> {
    note_str_to_num(name.to_string())
}

#[test]
fn decodes_plain_notes() {
    assert_eq!(decode("C3"), Ok(48));
    assert_eq!(decode("C5"), Ok(72));
    assert_eq!(decode("A4"), Ok(69));
}

#[test]
fn decodes_accidentals() {
    assert_eq!(decode("C#3"), Ok(49));
    assert_eq!(decode("Bb2"), Ok(46));
    assert_eq!(decode("F#4"), Ok(66));
    assert_eq!(decode("Db2"), Ok(37));
}

#[test]
fn letter_case_does_not_matter() {
    assert_eq!(decode("c3"), Ok(48));
    assert_eq!(decode("a4"), Ok(69));
    assert_eq!(decode("bb2"), Ok(46));
    assert_eq!(decode("b2"), Ok(47));
    assert_eq!(decode("B2"), Ok(47));
}

#[test]
fn accidental_is_case_sensitive() {
    assert_eq!(decode("CB3"), Err(InputError::InvalidAccidental));
    assert_eq!(decode("Cb3"), Ok(47));
}

#[test]
fn lowest_and_highest_notes() {
    assert_eq!(decode("C0"), Ok(12));
    assert_eq!(decode("Cb0"), Ok(11));
    assert_eq!(decode("G9"), Ok(127));
    assert_eq!(decode("Gb9"), Ok(126));
}

#[test]
fn pitches_above_the_top_are_held_to_it() {
    assert_eq!(decode("G#9"), Ok(MAX_PITCH));
    assert_eq!(decode("Ab9"), Ok(MAX_PITCH));
    assert_eq!(decode("A9"), Ok(MAX_PITCH));
    assert_eq!(decode("B9"), Ok(MAX_PITCH));
    assert_eq!(decode("B#9"), Ok(MAX_PITCH));
}

#[test]
fn every_note_name_decodes_by_the_formula() {
    let letters = [('C', 0), ('D', 2), ('E', 4), ('F', 5), ('G', 7), ('A', 9), ('B', 11)];
    let accidentals = [("", 0i32), ("#", 1), ("b", -1)];
    for (letter, offset) in letters {
        for (accidental, shift) in accidentals {
            for octave in 0..=9i32 {
                let raw = (octave + 1) * 12 + offset + shift;
                let expected = if raw > 127 { 127 } else { raw } as u8;
                let upper = format!("{}{}{}", letter, accidental, octave);
                let lower = format!("{}{}{}", letter.to_ascii_lowercase(), accidental, octave);
                assert_eq!(decode(&upper), Ok(expected));
                assert_eq!(decode(&lower), Ok(expected));
                assert!(expected <= 127);
            }
        }
    }
}

#[test]
fn wrong_lengths_are_rejected() {
    assert_eq!(decode(""), Err(InputError::InvalidLength));
    assert_eq!(decode("C"), Err(InputError::InvalidLength));
    assert_eq!(decode("C355"), Err(InputError::InvalidLength));
    assert_eq!(decode("C#10"), Err(InputError::InvalidLength));
}

#[test]
fn length_counts_characters() {
    assert_eq!(decode("\u{e9}"), Err(InputError::InvalidLength));
    assert_eq!(decode("C\u{e9}3"), Err(InputError::InvalidAccidental));
    assert_eq!(decode("C\u{20ac}"), Err(InputError::InvalidOctave));
}

#[test]
fn wrong_letters_are_rejected() {
    assert_eq!(decode("H3"), Err(InputError::InvalidNoteLetter));
    assert_eq!(decode(" 3"), Err(InputError::InvalidNoteLetter));
    assert_eq!(decode("3C"), Err(InputError::InvalidNoteLetter));
    assert_eq!(decode("#C3"), Err(InputError::InvalidNoteLetter));
}

#[test]
fn wrong_accidentals_are_rejected() {
    assert_eq!(decode("Cx3"), Err(InputError::InvalidAccidental));
    assert_eq!(decode("C33"), Err(InputError::InvalidAccidental));
    assert_eq!(decode("C 3"), Err(InputError::InvalidAccidental));
}

#[test]
fn wrong_octaves_are_rejected() {
    assert_eq!(decode("Cx"), Err(InputError::InvalidOctave));
    assert_eq!(decode("C#"), Err(InputError::InvalidOctave));
    assert_eq!(decode("C#x"), Err(InputError::InvalidOctave));
    assert_eq!(decode("Cb"), Err(InputError::InvalidOctave));
}

#[test]
fn faults_are_reported_from_left_to_right() {
    assert_eq!(decode("Hxx"), Err(InputError::InvalidNoteLetter));
    assert_eq!(decode("Cxx"), Err(InputError::InvalidAccidental));
    assert_eq!(decode("Hxxx"), Err(InputError::InvalidLength));
}

#[test]
fn letters_have_their_offsets() {
    assert_eq!(letter_to_offset('C'), Some(0));
    assert_eq!(letter_to_offset('d'), Some(2));
    assert_eq!(letter_to_offset('E'), Some(4));
    assert_eq!(letter_to_offset('f'), Some(5));
    assert_eq!(letter_to_offset('G'), Some(7));
    assert_eq!(letter_to_offset('a'), Some(9));
    assert_eq!(letter_to_offset('B'), Some(11));
    assert_eq!(letter_to_offset('H'), None);
    assert_eq!(letter_to_offset(' '), None);
}

#[test]
fn digits_have_their_values() {
    assert_eq!(digit_to_value('0'), Some(0));
    assert_eq!(digit_to_value('7'), Some(7));
    assert_eq!(digit_to_value('9'), Some(9));
    assert_eq!(digit_to_value('a'), None);
    assert_eq!(digit_to_value('\u{663}'), None);
}

#[test]
fn shown_names_start_with_a_capital() {
    assert_eq!(canonical_name("c3"), "C3");
    assert_eq!(canonical_name("C3"), "C3");
    assert_eq!(canonical_name("bb2"), "Bb2");
    assert_eq!(canonical_name("f#4"), "F#4");
    assert_eq!(canonical_name("a"), "A");
    assert_eq!(canonical_name(""), "");
    assert_eq!(canonical_name("h3"), "h3");
}

#[test]
fn shown_names_keep_their_pitch() {
    for name in ["c3", "bb2", "f#4", "G9", "a0"] {
        let shown = canonical_name(name);
        assert_eq!(decode(&shown), decode(name));
        assert_eq!(canonical_name(&shown), shown);
    }
}
