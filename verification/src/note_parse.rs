//! Note names such as `C#4` and the pitch numbers they stand for.

use vstd::prelude::*;
use vstd::string::{StrSliceExecFns, StringExecFns};
use crate::error::InputError;
use crate::text::{digit_to_value, digit_value, is_digit};

verus! {

/// The highest pitch number there is.
pub const MAX_PITCH: u8 = 127;

/// Semitones above C of the note letter `c`, in either case; `None` where
/// `c` is no note letter.
pub open spec fn letter_offset(c: char) -> Option<int> {
    if c == 'C' || c == 'c' {
        Some(0)
    } else if c == 'D' || c == 'd' {
        Some(2)
    } else if c == 'E' || c == 'e' {
        Some(4)
    } else if c == 'F' || c == 'f' {
        Some(5)
    } else if c == 'G' || c == 'g' {
        Some(7)
    } else if c == 'A' || c == 'a' {
        Some(9)
    } else if c == 'B' || c == 'b' {
        Some(11)
    } else {
        None
    }
}

/// Semitones that the accidental `c` adds: one for `#`, minus one for `b`;
/// `None` where `c` is neither.
pub open spec fn accidental_offset(c: char) -> Option<int> {
    if c == '#' {
        Some(1)
    } else if c == 'b' {
        Some(-1)
    } else {
        None
    }
}

/// The pitch of a note before it is held to the range of pitch numbers:
/// twelve semitones for each octave, counted from octave minus one, plus the
/// letter's and the accidental's offsets.
pub open spec fn raw_pitch(octave: int, letter: int, accidental: int) -> int {
    (octave + 1) * 12 + letter + accidental
}

/// `raw` held to the range of pitch numbers from 0 to [`MAX_PITCH`].
pub open spec fn clamp_pitch(raw: int) -> u8 {
    if raw < 0 {
        0u8
    } else if raw > MAX_PITCH as int {
        MAX_PITCH
    } else {
        raw as u8
    }
}

/// What a note name decodes to: the pitch, or the first fault found when the
/// name is read from left to right (length, then letter, then accidental,
/// then octave).
pub open spec fn decode(name: Seq<char>) -> Result<u8, InputError> {
    if name.len() != 2 && name.len() != 3 {
        Err(InputError::InvalidLength)
    } else if letter_offset(name[0]) is None {
        Err(InputError::InvalidNoteLetter)
    } else if name.len() == 3 && accidental_offset(name[1]) is None {
        Err(InputError::InvalidAccidental)
    } else if !is_digit(name.last()) {
        Err(InputError::InvalidOctave)
    } else {
        let accidental = if name.len() == 3 {
            accidental_offset(name[1])->Some_0
        } else {
            0
        };
        Ok(
            clamp_pitch(
                raw_pitch(digit_value(name.last()), letter_offset(name[0])->Some_0, accidental),
            ),
        )
    }
}

/// The capital of the note letter `c`; any other character is left as it is.
pub open spec fn capital(c: char) -> char {
    if c == 'c' {
        'C'
    } else if c == 'd' {
        'D'
    } else if c == 'e' {
        'E'
    } else if c == 'f' {
        'F'
    } else if c == 'g' {
        'G'
    } else if c == 'a' {
        'A'
    } else if c == 'b' {
        'B'
    } else {
        c
    }
}

/// The form in which a note name is shown: its letter as a capital, the
/// rest as it was typed.
pub open spec fn canonical(name: Seq<char>) -> Seq<char> {
    if name.len() == 0 {
        name
    } else {
        seq![capital(name[0])] + name.skip(1)
    }
}

/// Whether `name` is a note name: a note letter, then `#` or `b` or
/// neither, then one decimal digit.
pub open spec fn is_note_name(name: Seq<char>) -> bool {
    &&& name.len() == 2 || name.len() == 3
    &&& letter_offset(name[0]) is Some
    &&& name.len() == 3 ==> accidental_offset(name[1]) is Some
    &&& is_digit(name.last())
}

/// Semitones above C of the note letter `c`.
pub fn letter_to_offset(c: char) -> (offset: Option<u8>)
    ensures
        offset is Some <==> letter_offset(c) is Some,
        offset is Some ==> offset->Some_0 as int == letter_offset(c)->Some_0,
{
    match c {
        'C' | 'c' => Some(0),
        'D' | 'd' => Some(2),
        'E' | 'e' => Some(4),
        'F' | 'f' => Some(5),
        'G' | 'g' => Some(7),
        'A' | 'a' => Some(9),
        'B' | 'b' => Some(11),
        _ => None,
    }
}

/// Decodes a note name: a letter from A to G in either case, an optional
/// `#` or `b`, and one digit for the octave. Pitches above [`MAX_PITCH`],
/// which only some notes of octave 9 reach, come back as [`MAX_PITCH`].
pub fn note_str_to_num(str: String) -> (pitch: Result<u8, InputError>)
    ensures
        pitch == decode(str@),
        pitch is Ok <==> is_note_name(str@),
        pitch is Ok ==> pitch->Ok_0 <= MAX_PITCH,
{
    let text = str.as_str();
    let len: usize = text.unicode_len();
    if len != 2 && len != 3 {
        return Err(InputError::InvalidLength);
    }
    let letter: u8 = match letter_to_offset(text.get_char(0)) {
        Some(offset) => offset,
        None => { return Err(InputError::InvalidNoteLetter); },
    };
    let mut sharp: bool = false;
    let mut flat: bool = false;
    if len == 3 {
        let middle = text.get_char(1);
        if middle == '#' {
            sharp = true;
        } else if middle == 'b' {
            flat = true;
        } else {
            return Err(InputError::InvalidAccidental);
        }
    }
    let octave: u8 = match digit_to_value(text.get_char(len - 1)) {
        Some(value) => value,
        None => { return Err(InputError::InvalidOctave); },
    };
    let base: u8 = (octave + 1) * 12 + letter;
    let raw: u8 = if sharp {
        base + 1
    } else if flat {
        base - 1
    } else {
        base
    };
    if raw > MAX_PITCH {
        Ok(MAX_PITCH)
    } else {
        Ok(raw)
    }
}

/// The form in which a note name is shown: its letter as a capital, the
/// rest as it was typed.
pub fn canonical_name(name: &str) -> (shown: String)
    ensures
        shown@ == canonical(name@),
{
    let len: usize = name.unicode_len();
    if len == 0 {
        return name.to_owned();
    }
    let first = name.get_char(0);
    let letter: &'static str = match first {
        'c' | 'C' => "C",
        'd' | 'D' => "D",
        'e' | 'E' => "E",
        'f' | 'F' => "F",
        'g' | 'G' => "G",
        'a' | 'A' => "A",
        'b' | 'B' => "B",
        _ => { return name.to_owned(); },
    };
    proof {
        reveal_strlit("C");
        reveal_strlit("D");
        reveal_strlit("E");
        reveal_strlit("F");
        reveal_strlit("G");
        reveal_strlit("A");
        reveal_strlit("B");
        assert(letter@ =~= seq![capital(first)]);
    }
    let shown = letter.to_owned().concat(name.substring_char(1, len));
    proof {
        assert(name@.subrange(1, len as int) =~= name@.skip(1));
    }
    shown
}

/// The names that decode are exactly the note names, and every pitch that
/// comes out lies between 0 and [`MAX_PITCH`].
pub proof fn lemma_decode_accepts_note_names(name: Seq<char>)
    ensures
        decode(name) is Ok <==> is_note_name(name),
        decode(name) is Ok ==> 0 <= decode(name)->Ok_0 <= MAX_PITCH,
{
}

/// A note name decodes to the same pitch in the form in which it is shown,
/// and that form is a fixed point of [`canonical`].
pub proof fn lemma_canonical_keeps_pitch(name: Seq<char>)
    ensures
        decode(canonical(name)) == decode(name),
        canonical(canonical(name)) == canonical(name),
{
    let shown = canonical(name);
    if name.len() > 0 {
        assert forall|i: int| 1 <= i < name.len() implies shown[i] == name[i] by {
            assert(shown[i] == name.skip(1)[i - 1]);
        }
        assert(canonical(shown) =~= shown);
    }
}

} // verus!
