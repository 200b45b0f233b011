use ear_trainer::error::InputError;
use ear_trainer::modes::{decode_boolean, decode_option, Choice, GameMode, NoteMode, SeqMode};

#[test]
fn game_mode_codes() {
    assert_eq!(decode_option::<GameMode>("0"), Ok(GameMode::Notes));
    assert_eq!(decode_option::<GameMode>("1"), Ok(GameMode::Intervals));
    assert_eq!(decode_option::<GameMode>("2"), Ok(GameMode::Chords));
    assert_eq!(decode_option::<GameMode>("3"), Ok(GameMode::Scales));
    assert_eq!(decode_option::<GameMode>("4"), Err(InputError::UnknownOptionCode));
}

#[test]
fn note_mode_codes() {
    assert_eq!(decode_option::<NoteMode>("0"), Ok(NoteMode::Cluster));
    assert_eq!(decode_option::<NoteMode>("1"), Ok(NoteMode::Sequential));
    assert_eq!(decode_option::<NoteMode>("2"), Ok(NoteMode::Random));
    assert_eq!(decode_option::<NoteMode>("3"), Err(InputError::UnknownOptionCode));
}

#[test]
fn seq_mode_codes() {
    assert_eq!(decode_option::<SeqMode>("0"), Ok(SeqMode::TrueRandom));
    assert_eq!(decode_option::<SeqMode>("1"), Ok(SeqMode::NoRepeat));
    assert_eq!(decode_option::<SeqMode>("2"), Err(InputError::UnknownOptionCode));
}

#[test]
fn malformed_codes() {
    assert_eq!(decode_option::<GameMode>("-1"), Err(InputError::MalformedInput));
    assert_eq!(decode_option::<GameMode>("notes"), Err(InputError::MalformedInput));
    assert_eq!(decode_option::<GameMode>(""), Err(InputError::MalformedInput));
    assert_eq!(decode_option::<NoteMode>("1 "), Err(InputError::MalformedInput));
    assert_eq!(decode_option::<SeqMode>("0x1"), Err(InputError::MalformedInput));
}

#[test]
fn large_codes_are_unknown() {
    assert_eq!(decode_option::<GameMode>("300"), Err(InputError::UnknownOptionCode));
    assert_eq!(
        decode_option::<GameMode>("340282366920938463463374607431768211456"),
        Err(InputError::UnknownOptionCode)
    );
}

#[test]
fn codes_and_values_stand_one_for_one() {
    assert_eq!(GameMode::variants(), 4);
    assert_eq!(NoteMode::variants(), 3);
    assert_eq!(SeqMode::variants(), 2);
    for code in 0..GameMode::variants() {
        assert_eq!(GameMode::from_code(code).map(|v| v.code()), Some(code));
    }
    for code in 0..NoteMode::variants() {
        assert_eq!(NoteMode::from_code(code).map(|v| v.code()), Some(code));
    }
    for code in 0..SeqMode::variants() {
        assert_eq!(SeqMode::from_code(code).map(|v| v.code()), Some(code));
    }
    assert_eq!(GameMode::from_code(4), None);
    assert_eq!(NoteMode::from_code(3), None);
    assert_eq!(SeqMode::from_code(2), None);
    assert_eq!(SeqMode::from_code(usize::MAX), None);
}

#[test]
fn values_have_their_names() {
    assert_eq!(GameMode::Notes.name(), "Notes");
    assert_eq!(GameMode::Intervals.name(), "Intervals");
    assert_eq!(GameMode::Chords.name(), "Chords");
    assert_eq!(GameMode::Scales.name(), "Scales");
    assert_eq!(NoteMode::Cluster.name(), "Cluster");
    assert_eq!(NoteMode::Sequential.name(), "Sequential");
    assert_eq!(NoteMode::Random.name(), "Random");
    assert_eq!(SeqMode::TrueRandom.name(), "TrueRandom");
    assert_eq!(SeqMode::NoRepeat.name(), "NoRepeat");
}

#[test]
fn names_match_the_debug_form() {
    assert_eq!(GameMode::Chords.name(), format!("{:?}", GameMode::Chords));
    assert_eq!(NoteMode::Random.name(), format!("{:?}", NoteMode::Random));
    assert_eq!(SeqMode::NoRepeat.name(), format!("{:?}", SeqMode::NoRepeat));
}

#[test]
fn boolean_answers() {
    assert_eq!(decode_boolean("0"), Ok(false));
    assert_eq!(decode_boolean("1"), Ok(true));
}

#[test]
fn boolean_rejects_other_numbers() {
    assert_eq!(decode_boolean("2"), Err(InputError::UnknownOptionCode));
    assert_eq!(decode_boolean("10"), Err(InputError::UnknownOptionCode));
    assert_eq!(decode_boolean("01"), Err(InputError::UnknownOptionCode));
    assert_eq!(decode_boolean("00"), Err(InputError::UnknownOptionCode));
}

#[test]
fn boolean_rejects_text() {
    assert_eq!(decode_boolean(""), Err(InputError::MalformedInput));
    assert_eq!(decode_boolean("yes"), Err(InputError::MalformedInput));
    assert_eq!(decode_boolean("true"), Err(InputError::MalformedInput));
    assert_eq!(decode_boolean("-1"), Err(InputError::MalformedInput));
    assert_eq!(decode_boolean("+1"), Err(InputError::MalformedInput));
    assert_eq!(decode_boolean("1 "), Err(InputError::MalformedInput));
}
