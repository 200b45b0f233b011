//! The ways in which a typed answer can be wrong.

use vstd::prelude::*;

verus! {

/// Why an answer was turned down. Every one of these is recoverable: the
/// question is simply asked again.
#[derive(Clone, Copy, Debug, PartialEq, Eq, Structural)]
pub enum InputError {
    /// A note name that is not two or three characters long.
    InvalidLength,
    /// A note name whose first character is not one of A to G.
    InvalidNoteLetter,
    /// A three-character note name whose middle character is neither `#` nor `b`.
    InvalidAccidental,
    /// A note name whose last character is not a decimal digit.
    InvalidOctave,
    /// Text that is not a numeral where a number was expected.
    MalformedInput,
    /// A number that stands for none of the choices on offer.
    UnknownOptionCode,
    /// An upper bound that does not lie above the lower bound.
    RangeOrderViolation,
}

impl InputError {
    /// The text shown to the user for this error.
    pub open spec fn message_spec(self) -> Seq<char> {
        match self {
            InputError::InvalidLength => "Incorrect amount of characters in note name"@,
            InputError::InvalidNoteLetter => "Invalid note name, must be A-G"@,
            InputError::InvalidAccidental => "Invalid second character, must be # or b"@,
            InputError::InvalidOctave => "Invalid octave, must be number between 0 and 9"@,
            InputError::MalformedInput => "Invalid input"@,
            InputError::UnknownOptionCode => "Invalid input"@,
            InputError::RangeOrderViolation =>
                "Upper bound can't be same as or lower than first bound"@,
        }
    }

    /// The line printed for this error: a fault in a note name is
    /// introduced by `Error: `, the others stand alone.
    pub open spec fn report_spec(self) -> Seq<char> {
        match self {
            InputError::InvalidLength => "Error: Incorrect amount of characters in note name"@,
            InputError::InvalidNoteLetter => "Error: Invalid note name, must be A-G"@,
            InputError::InvalidAccidental => "Error: Invalid second character, must be # or b"@,
            InputError::InvalidOctave =>
                "Error: Invalid octave, must be number between 0 and 9"@,
            _ => self.message_spec(),
        }
    }

    /// The text shown to the user for this error.
    pub fn message(&self) -> (text: &'static str)
        ensures
            text@ == self.message_spec(),
    {
        match self {
            InputError::InvalidLength => "Incorrect amount of characters in note name",
            InputError::InvalidNoteLetter => "Invalid note name, must be A-G",
            InputError::InvalidAccidental => "Invalid second character, must be # or b",
            InputError::InvalidOctave => "Invalid octave, must be number between 0 and 9",
            InputError::MalformedInput => "Invalid input",
            InputError::UnknownOptionCode => "Invalid input",
            InputError::RangeOrderViolation =>
                "Upper bound can't be same as or lower than first bound",
        }
    }

    /// The line printed for this error.
    pub fn report(&self) -> (text: &'static str)
        ensures
            text@ == self.report_spec(),
    {
        match self {
            InputError::InvalidLength => "Error: Incorrect amount of characters in note name",
            InputError::InvalidNoteLetter => "Error: Invalid note name, must be A-G",
            InputError::InvalidAccidental => "Error: Invalid second character, must be # or b",
            InputError::InvalidOctave => "Error: Invalid octave, must be number between 0 and 9",
            _ => self.message(),
        }
    }
}

} // verus!
