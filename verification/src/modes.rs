//! The settings that are picked from a numbered menu.

use vstd::prelude::*;
use vstd::string::StrSliceExecFns;
use crate::error::InputError;
use crate::text::{code_below, is_numeral, parse_below};

verus! {

/// What the user is asked to recognise.
#[derive(Clone, Copy, Debug, PartialEq, Eq, Structural)]
pub enum GameMode {
    Notes,
    Intervals,
    Chords,
    Scales,
}

/// How the notes of one question are played.
#[derive(Clone, Copy, Debug, PartialEq, Eq, Structural)]
pub enum NoteMode {
    Cluster,
    Sequential,
    Random,
}

/// How the questions follow one another.
#[derive(Clone, Copy, Debug, PartialEq, Eq, Structural)]
pub enum SeqMode {
    TrueRandom,
    NoRepeat,
}

/// A setting with a fixed list of values, numbered from zero in the order
/// in which they are declared.
pub trait Choice: Sized {
    /// How many values there are.
    spec fn count() -> nat;

    /// The value with the given code.
    spec fn with_code(code: nat) -> Self;

    /// The code of this value.
    spec fn code_spec(&self) -> nat;

    /// The name of this value.
    spec fn name_spec(&self) -> Seq<char>;

    /// Codes and values stand one for one: every value's code is below the
    /// count and leads back to the value, and every code below the count
    /// is the code of its value.
    proof fn codes_match(value: Self, code: nat)
        ensures
            value.code_spec() < Self::count(),
            Self::with_code(value.code_spec()) == value,
            code < Self::count() ==> Self::with_code(code).code_spec() == code,
    ;

    /// How many values there are.
    fn variants() -> (n: usize)
        ensures
            n == Self::count(),
    ;

    /// The value with the given code; `None` where the code stands for no
    /// value.
    fn from_code(code: usize) -> (value: Option<Self>)
        ensures
            value == (if code < Self::count() {
                Some(Self::with_code(code as nat))
            } else {
                None
            }),
    ;

    /// The code of this value.
    fn code(&self) -> (code: usize)
        ensures
            code == self.code_spec(),
    ;

    /// The name of this value.
    fn name(&self) -> (name: &'static str)
        ensures
            name@ == self.name_spec(),
    ;
}

impl Choice for GameMode {
    open spec fn count() -> nat {
        4
    }

    open spec fn with_code(code: nat) -> Self {
        if code == 0 {
            GameMode::Notes
        } else if code == 1 {
            GameMode::Intervals
        } else if code == 2 {
            GameMode::Chords
        } else {
            GameMode::Scales
        }
    }

    open spec fn code_spec(&self) -> nat {
        match self {
            GameMode::Notes => 0,
            GameMode::Intervals => 1,
            GameMode::Chords => 2,
            GameMode::Scales => 3,
        }
    }

    open spec fn name_spec(&self) -> Seq<char> {
        match self {
            GameMode::Notes => "Notes"@,
            GameMode::Intervals => "Intervals"@,
            GameMode::Chords => "Chords"@,
            GameMode::Scales => "Scales"@,
        }
    }

    proof fn codes_match(value: Self, code: nat) {
    }

    fn variants() -> (n: usize) {
        4
    }

    fn from_code(code: usize) -> (value: Option<Self>) {
        match code {
            0 => Some(GameMode::Notes),
            1 => Some(GameMode::Intervals),
            2 => Some(GameMode::Chords),
            3 => Some(GameMode::Scales),
            _ => None,
        }
    }

    fn code(&self) -> (code: usize) {
        match self {
            GameMode::Notes => 0,
            GameMode::Intervals => 1,
            GameMode::Chords => 2,
            GameMode::Scales => 3,
        }
    }

    fn name(&self) -> (name: &'static str) {
        match self {
            GameMode::Notes => "Notes",
            GameMode::Intervals => "Intervals",
            GameMode::Chords => "Chords",
            GameMode::Scales => "Scales",
        }
    }
}

impl Choice for NoteMode {
    open spec fn count() -> nat {
        3
    }

    open spec fn with_code(code: nat) -> Self {
        if code == 0 {
            NoteMode::Cluster
        } else if code == 1 {
            NoteMode::Sequential
        } else {
            NoteMode::Random
        }
    }

    open spec fn code_spec(&self) -> nat {
        match self {
            NoteMode::Cluster => 0,
            NoteMode::Sequential => 1,
            NoteMode::Random => 2,
        }
    }

    open spec fn name_spec(&self) -> Seq<char> {
        match self {
            NoteMode::Cluster => "Cluster"@,
            NoteMode::Sequential => "Sequential"@,
            NoteMode::Random => "Random"@,
        }
    }

    proof fn codes_match(value: Self, code: nat) {
    }

    fn variants() -> (n: usize) {
        3
    }

    fn from_code(code: usize) -> (value: Option<Self>) {
        match code {
            0 => Some(NoteMode::Cluster),
            1 => Some(NoteMode::Sequential),
            2 => Some(NoteMode::Random),
            _ => None,
        }
    }

    fn code(&self) -> (code: usize) {
        match self {
            NoteMode::Cluster => 0,
            NoteMode::Sequential => 1,
            NoteMode::Random => 2,
        }
    }

    fn name(&self) -> (name: &'static str) {
        match self {
            NoteMode::Cluster => "Cluster",
            NoteMode::Sequential => "Sequential",
            NoteMode::Random => "Random",
        }
    }
}

impl Choice for SeqMode {
    open spec fn count() -> nat {
        2
    }

    open spec fn with_code(code: nat) -> Self {
        if code == 0 {
            SeqMode::TrueRandom
        } else {
            SeqMode::NoRepeat
        }
    }

    open spec fn code_spec(&self) -> nat {
        match self {
            SeqMode::TrueRandom => 0,
            SeqMode::NoRepeat => 1,
        }
    }

    open spec fn name_spec(&self) -> Seq<char> {
        match self {
            SeqMode::TrueRandom => "TrueRandom"@,
            SeqMode::NoRepeat => "NoRepeat"@,
        }
    }

    proof fn codes_match(value: Self, code: nat) {
    }

    fn variants() -> (n: usize) {
        2
    }

    fn from_code(code: usize) -> (value: Option<Self>) {
        match code {
            0 => Some(SeqMode::TrueRandom),
            1 => Some(SeqMode::NoRepeat),
            _ => None,
        }
    }

    fn code(&self) -> (code: usize) {
        match self {
            SeqMode::TrueRandom => 0,
            SeqMode::NoRepeat => 1,
        }
    }

    fn name(&self) -> (name: &'static str) {
        match self {
            SeqMode::TrueRandom => "TrueRandom",
            SeqMode::NoRepeat => "NoRepeat",
        }
    }
}

/// What a typed answer to a menu picks: the value whose code it is, or why
/// it picks none.
pub open spec fn option_of<T: Choice>(text: Seq<char>) -> Result<T, InputError> {
    match code_below(text, T::count()) {
        Ok(code) => Ok(T::with_code(code)),
        Err(e) => Err(e),
    }
}

/// What a typed answer to a yes-or-no question means: `0` is no and `1` is
/// yes, each written exactly so; another numeral is an unknown code, and
/// anything else is malformed.
pub open spec fn boolean_of(text: Seq<char>) -> Result<bool, InputError> {
    if text == seq!['0'] {
        Ok(false)
    } else if text == seq!['1'] {
        Ok(true)
    } else if is_numeral(text) {
        Err(InputError::UnknownOptionCode)
    } else {
        Err(InputError::MalformedInput)
    }
}

/// Reads an answer to a menu: a numeral that is the code of one of the
/// values of `T`.
pub fn decode_option<T: Choice>(text: &str) -> (picked: Result<T, InputError>)
    ensures
        picked == option_of::<T>(text@),
{
    match parse_below(text, T::variants()) {
        Ok(code) => match T::from_code(code) {
            Some(value) => Ok(value),
            None => Err(InputError::UnknownOptionCode),
        },
        Err(e) => Err(e),
    }
}

/// Reads an answer to a yes-or-no question: exactly `0` or exactly `1`.
pub fn decode_boolean(text: &str) -> (picked: Result<bool, InputError>)
    ensures
        picked == boolean_of(text@),
{
    let len: usize = text.unicode_len();
    if len == 1 {
        let only = text.get_char(0);
        if only == '0' {
            assert(text@ =~= seq!['0']);
            return Ok(false);
        }
        if only == '1' {
            assert(text@ =~= seq!['1']);
            return Ok(true);
        }
    }
    assert(text@ != seq!['0'] && text@ != seq!['1']) by {
        if text@ == seq!['0'] || text@ == seq!['1'] {
            assert(text@.len() == 1);
            assert(text@[0] == '0' || text@[0] == '1');
        }
    }
    // No number lies below zero, so this only tells a numeral from other text.
    match parse_below(text, 0) {
        Ok(_) => Err(InputError::UnknownOptionCode),
        Err(e) => Err(e),
    }
}

} // verus!
