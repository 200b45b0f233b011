//! The settings of a session and the dialogue that fills them in.

use core::ops::RangeInclusive;
use vstd::prelude::*;
use vstd::string::StringExecFns;
use crate::error::InputError;
use crate::modes::{boolean_of, decode_boolean, decode_option, option_of};
use crate::modes::{Choice, GameMode, NoteMode, SeqMode};
use crate::note_parse::{canonical, canonical_name, decode, note_str_to_num};
use crate::note_parse::lemma_canonical_keeps_pitch;
use crate::text::{trim, trimmed};

verus! {

/// The settings of a session.
pub struct Options {
    range: (u8, u8),
    range_names: (String, String),
    seq_mode: SeqMode,
    note_mode: NoteMode,
    game_mode: GameMode,
    allow_repeat: bool,
}

/// What a set of [`Options`] holds.
pub struct OptionsView {
    /// The lowest and the highest pitch that may be played.
    pub range: (u8, u8),
    /// The note names that the two pitches were entered as.
    pub range_names: (Seq<char>, Seq<char>),
    pub seq_mode: SeqMode,
    pub note_mode: NoteMode,
    pub game_mode: GameMode,
    /// Whether a question may be heard again.
    pub allow_repeat: bool,
}

impl OptionsView {
    /// The range ascends, and each of its names decodes to its pitch.
    pub open spec fn wf(self) -> bool {
        &&& self.range.0 < self.range.1
        &&& decode(self.range_names.0) == Ok::<u8, InputError>(self.range.0)
        &&& decode(self.range_names.1) == Ok::<u8, InputError>(self.range.1)
    }

    /// The settings that a session starts with: intervals, played in
    /// sequence and picked at random, from C3 to C5, with repeats.
    pub open spec fn initial() -> OptionsView {
        OptionsView {
            range: (48, 72),
            range_names: ("C3"@, "C5"@),
            seq_mode: SeqMode::TrueRandom,
            note_mode: NoteMode::Sequential,
            game_mode: GameMode::Intervals,
            allow_repeat: true,
        }
    }

    /// The settings written out, one to a line.
    pub open spec fn describe(self) -> Seq<char> {
        "Game Mode: "@ + self.game_mode.name_spec() + "\nNote Mode: "@
            + self.note_mode.name_spec() + "\nSequence: "@ + self.seq_mode.name_spec()
            + "\nRange: "@ + self.range_names.0 + "-"@ + self.range_names.1
            + "\nAllow Repeat: "@ + (if self.allow_repeat {
            "true"@
        } else {
            "false"@
        })
    }
}

impl View for Options {
    type V = OptionsView;

    closed spec fn view(&self) -> OptionsView {
        OptionsView {
            range: self.range,
            range_names: (self.range_names.0@, self.range_names.1@),
            seq_mode: self.seq_mode,
            note_mode: self.note_mode,
            game_mode: self.game_mode,
            allow_repeat: self.allow_repeat,
        }
    }
}

impl Options {
    /// Every set of options is sound, as [`OptionsView::wf`] says.
    #[verifier::type_invariant]
    spec fn sound(&self) -> bool {
        self@.wf()
    }

    /// The pitches that may be played, from the lowest to the highest, which
    /// lies above the lowest.
    pub fn range(&self) -> (r: RangeInclusive<u8>)
        ensures
            r@.start == self@.range.0,
            r@.end == self@.range.1,
            !r@.exhausted,
            r@.start < r@.end,
    {
        proof {
            use_type_invariant(self);
        }
        RangeInclusive::new(self.range.0, self.range.1)
    }

    /// The note names that the lowest and the highest pitch were entered as.
    pub fn range_names(&self) -> (names: (&str, &str))
        ensures
            names.0@ == self@.range_names.0,
            names.1@ == self@.range_names.1,
    {
        (self.range_names.0.as_str(), self.range_names.1.as_str())
    }

    /// How the questions follow one another.
    pub fn seq_mode(&self) -> (mode: SeqMode)
        ensures
            mode == self@.seq_mode,
    {
        self.seq_mode
    }

    /// How the notes of one question are played.
    pub fn note_mode(&self) -> (mode: NoteMode)
        ensures
            mode == self@.note_mode,
    {
        self.note_mode
    }

    /// What the user is asked to recognise.
    pub fn game_mode(&self) -> (mode: GameMode)
        ensures
            mode == self@.game_mode,
    {
        self.game_mode
    }

    /// Whether a question may be heard again.
    pub fn allow_repeat(&self) -> (allowed: bool)
        ensures
            allowed == self@.allow_repeat,
    {
        self.allow_repeat
    }

    /// The settings written out, one to a line.
    pub fn describe(&self) -> (text: String)
        ensures
            text@ == self@.describe(),
    {
        let mut text = "Game Mode: ".to_owned();
        text.append(self.game_mode.name());
        text.append("\nNote Mode: ");
        text.append(self.note_mode.name());
        text.append("\nSequence: ");
        text.append(self.seq_mode.name());
        text.append("\nRange: ");
        text.append(self.range_names.0.as_str());
        text.append("-");
        text.append(self.range_names.1.as_str());
        text.append("\nAllow Repeat: ");
        text.append(if self.allow_repeat { "true" } else { "false" });
        text
    }
}

impl Default for Options {
    /// The settings that a session starts with.
    fn default() -> (options: Options)
        ensures
            options@ == OptionsView::initial(),
            options@.wf(),
    {
        proof {
            lemma_initial_is_sound();
        }
        Options {
            range: (48, 72),
            range_names: ("C3".to_owned(), "C5".to_owned()),
            seq_mode: SeqMode::TrueRandom,
            note_mode: NoteMode::Sequential,
            game_mode: GameMode::Intervals,
            allow_repeat: true,
        }
    }
}

/// The settings that a session starts with are sound.
pub proof fn lemma_initial_is_sound()
    ensures
        OptionsView::initial().wf(),
{
    reveal_strlit("C3");
    reveal_strlit("C5");
}

/// The question that the dialogue is at.
#[derive(Clone, Copy, Debug, PartialEq, Eq, Structural)]
pub enum Stage {
    GameMode,
    NoteMode,
    SeqMode,
    RangeLower,
    RangeUpper,
    AllowRepeat,
    /// Every question has been answered.
    Done,
}

impl Stage {
    /// What is shown once when the dialogue comes to this question.
    pub open spec fn menu_spec(self) -> Seq<char> {
        match self {
            Stage::GameMode =>
                "Please select game mode:\n0: Notes      -   Hear individual notes and enter their names\n1: Intervals  -   Hear two notes and enter the interval between them\n2: Chords     -   Hear chords and enter their names\n3: Scales     -   Hear scales and enter their names\n"@,
            Stage::NoteMode =>
                "Please select note mode:\n0: Cluster    -   Notes are played simultaneously in chords/chordiods\n1: Sequential -   Notes are played in sequence\n2: Random     -   Pick mode randomly for each question\n"@,
            Stage::SeqMode =>
                "Please select sequence mode\n0: True Random    -   Notes/Chords are picked at random\n1: No Repeat      -   Randomize, but make sure all questions appear before repetition\n"@,
            Stage::RangeLower => "Please select a note range: \n"@,
            Stage::RangeUpper => ""@,
            Stage::AllowRepeat =>
                "Allow repetition of questions?\n0: Disallow   -   the sound for a question will only be heard once\n1: Allow      -   the sound for a question can be replayed at will\n"@,
            Stage::Done => ""@,
        }
    }

    /// What is shown each time an answer to this question is asked for.
    pub open spec fn prompt_spec(self) -> Seq<char> {
        match self {
            Stage::RangeLower => "Range lower bound: "@,
            Stage::RangeUpper => "Range upper bound: "@,
            Stage::Done => ""@,
            _ => "Enter number: "@,
        }
    }

    /// What is shown once when the dialogue comes to this question.
    pub fn menu(&self) -> (text: &'static str)
        ensures
            text@ == self.menu_spec(),
    {
        match self {
            Stage::GameMode =>
                "Please select game mode:\n0: Notes      -   Hear individual notes and enter their names\n1: Intervals  -   Hear two notes and enter the interval between them\n2: Chords     -   Hear chords and enter their names\n3: Scales     -   Hear scales and enter their names\n",
            Stage::NoteMode =>
                "Please select note mode:\n0: Cluster    -   Notes are played simultaneously in chords/chordiods\n1: Sequential -   Notes are played in sequence\n2: Random     -   Pick mode randomly for each question\n",
            Stage::SeqMode =>
                "Please select sequence mode\n0: True Random    -   Notes/Chords are picked at random\n1: No Repeat      -   Randomize, but make sure all questions appear before repetition\n",
            Stage::RangeLower => "Please select a note range: \n",
            Stage::RangeUpper => "",
            Stage::AllowRepeat =>
                "Allow repetition of questions?\n0: Disallow   -   the sound for a question will only be heard once\n1: Allow      -   the sound for a question can be replayed at will\n",
            Stage::Done => "",
        }
    }

    /// What is shown each time an answer to this question is asked for.
    pub fn prompt(&self) -> (text: &'static str)
        ensures
            text@ == self.prompt_spec(),
    {
        match self {
            Stage::RangeLower => "Range lower bound: ",
            Stage::RangeUpper => "Range upper bound: ",
            Stage::Done => "",
            _ => "Enter number: ",
        }
    }
}

/// Where a dialogue stands: the question it is at and, between the two
/// bounds of the range, the lower bound that was accepted.
pub struct Dialogue {
    stage: Stage,
    lower: u8,
    lower_name: String,
}

/// What a [`Dialogue`] holds.
pub struct DialogueView {
    /// The question that comes next.
    pub stage: Stage,
    /// The lower bound that waits for its upper bound: its pitch and its
    /// name as shown.
    pub pending: Option<(u8, Seq<char>)>,
}

impl DialogueView {
    /// A lower bound waits exactly while the upper bound is asked for, and
    /// its name decodes to its pitch.
    pub open spec fn wf(self) -> bool {
        &&& self.stage == Stage::RangeUpper <==> self.pending is Some
        &&& self.pending is Some ==> decode(self.pending->Some_0.1) == Ok::<u8, InputError>(
            self.pending->Some_0.0,
        )
    }

    /// A dialogue before its first question.
    pub open spec fn start() -> DialogueView {
        DialogueView { stage: Stage::GameMode, pending: None }
    }

    /// This dialogue moved on to `stage`, with no bound waiting.
    pub open spec fn at(self, stage: Stage) -> DialogueView {
        DialogueView { stage, pending: None }
    }
}

/// What one answer leads to: where the dialogue stands after it, the
/// settings after it, and whether it was accepted.
pub struct Step {
    pub dialogue: DialogueView,
    pub options: OptionsView,
    pub outcome: Result<(), InputError>,
}

/// An answer that was turned down for `error`: nothing changes.
pub open spec fn rejected(d: DialogueView, o: OptionsView, error: InputError) -> Step {
    Step { dialogue: d, options: o, outcome: Err(error) }
}

/// An answer that was accepted: the dialogue moves on to `stage`.
pub open spec fn accepted(d: DialogueView, o: OptionsView, stage: Stage) -> Step {
    Step { dialogue: d.at(stage), options: o, outcome: Ok(()) }
}

/// What the line `line`, typed in answer to the question that `d` is at,
/// leads to. The blanks around the line do not count. A setting changes
/// only when its answer is accepted; the two bounds of the range change
/// together, once the upper one is accepted and lies above the lower one,
/// and an upper bound that does not sends the dialogue back to the lower
/// bound. A dialogue that is done ignores the line.
pub open spec fn step(d: DialogueView, o: OptionsView, line: Seq<char>) -> Step {
    let token = trimmed(line);
    match d.stage {
        Stage::GameMode => match option_of::<GameMode>(token) {
            Ok(mode) => accepted(d, OptionsView { game_mode: mode, ..o }, Stage::NoteMode),
            Err(e) => rejected(d, o, e),
        },
        Stage::NoteMode => match option_of::<NoteMode>(token) {
            Ok(mode) => accepted(d, OptionsView { note_mode: mode, ..o }, Stage::SeqMode),
            Err(e) => rejected(d, o, e),
        },
        Stage::SeqMode => match option_of::<SeqMode>(token) {
            Ok(mode) => accepted(d, OptionsView { seq_mode: mode, ..o }, Stage::RangeLower),
            Err(e) => rejected(d, o, e),
        },
        Stage::RangeLower => match decode(token) {
            Ok(pitch) => Step {
                dialogue: DialogueView {
                    stage: Stage::RangeUpper,
                    pending: Some((pitch, canonical(token))),
                },
                options: o,
                outcome: Ok(()),
            },
            Err(e) => rejected(d, o, e),
        },
        Stage::RangeUpper => match decode(token) {
            Ok(pitch) => if d.pending is Some && d.pending->Some_0.0 < pitch {
                accepted(
                    d,
                    OptionsView {
                        range: (d.pending->Some_0.0, pitch),
                        range_names: (d.pending->Some_0.1, canonical(token)),
                        ..o
                    },
                    Stage::AllowRepeat,
                )
            } else {
                rejected(d.at(Stage::RangeLower), o, InputError::RangeOrderViolation)
            },
            Err(e) => rejected(d, o, e),
        },
        Stage::AllowRepeat => match boolean_of(token) {
            Ok(allowed) => accepted(d, OptionsView { allow_repeat: allowed, ..o }, Stage::Done),
            Err(e) => rejected(d, o, e),
        },
        Stage::Done => Step { dialogue: d, options: o, outcome: Ok(()) },
    }
}

impl View for Dialogue {
    type V = DialogueView;

    closed spec fn view(&self) -> DialogueView {
        DialogueView {
            stage: self.stage,
            pending: if self.stage == Stage::RangeUpper {
                Some((self.lower, self.lower_name@))
            } else {
                None
            },
        }
    }
}

impl Dialogue {
    /// Every dialogue is sound, as [`DialogueView::wf`] says.
    #[verifier::type_invariant]
    spec fn sound(&self) -> bool {
        self@.wf()
    }

    /// A dialogue before its first question.
    pub fn new() -> (dialogue: Dialogue)
        ensures
            dialogue@ == DialogueView::start(),
            dialogue@.wf(),
    {
        Dialogue { stage: Stage::GameMode, lower: 0, lower_name: String::new() }
    }

    /// The question that comes next.
    pub fn stage(&self) -> (stage: Stage)
        ensures
            stage == self@.stage,
    {
        self.stage
    }

    /// Whether every question has been answered.
    pub fn is_done(&self) -> (done: bool)
        ensures
            done == (self@.stage == Stage::Done),
    {
        match self.stage {
            Stage::Done => true,
            _ => false,
        }
    }

    /// Takes the line typed in answer to the question that comes next, and
    /// changes the dialogue and the settings as [`step`] says.
    pub fn answer(&mut self, options: &mut Options, line: &str) -> (outcome: Result<
        (),
        InputError,
    >)
        ensures
            final(self)@ == step(old(self)@, old(options)@, line@).dialogue,
            final(options)@ == step(old(self)@, old(options)@, line@).options,
            outcome == step(old(self)@, old(options)@, line@).outcome,
            final(self)@.wf(),
            final(options)@.wf(),
    {
        proof {
            use_type_invariant(&*self);
            use_type_invariant(&*options);
        }
        let token = trim(line);
        match self.stage {
            Stage::GameMode => {
                let mode = decode_option::<GameMode>(token)?;
                options.game_mode = mode;
                self.stage = Stage::NoteMode;
            },
            Stage::NoteMode => {
                let mode = decode_option::<NoteMode>(token)?;
                options.note_mode = mode;
                self.stage = Stage::SeqMode;
            },
            Stage::SeqMode => {
                let mode = decode_option::<SeqMode>(token)?;
                options.seq_mode = mode;
                self.stage = Stage::RangeLower;
            },
            Stage::RangeLower => {
                let pitch = note_str_to_num(token.to_owned())?;
                proof {
                    lemma_canonical_keeps_pitch(token@);
                }
                self.lower = pitch;
                self.lower_name = canonical_name(token);
                self.stage = Stage::RangeUpper;
            },
            Stage::RangeUpper => {
                let pitch = note_str_to_num(token.to_owned())?;
                if self.lower < pitch {
                    proof {
                        lemma_canonical_keeps_pitch(token@);
                    }
                    *options = Options {
                        range: (self.lower, pitch),
                        range_names: (self.lower_name.clone(), canonical_name(token)),
                        seq_mode: options.seq_mode,
                        note_mode: options.note_mode,
                        game_mode: options.game_mode,
                        allow_repeat: options.allow_repeat,
                    };
                    self.stage = Stage::AllowRepeat;
                } else {
                    self.stage = Stage::RangeLower;
                    return Err(InputError::RangeOrderViolation);
                }
            },
            Stage::AllowRepeat => {
                let allowed = decode_boolean(token)?;
                options.allow_repeat = allowed;
                self.stage = Stage::Done;
            },
            Stage::Done => {},
        }
        Ok(())
    }
}

/// What a run of answers leads to.
pub struct Replay {
    /// Where the dialogue stands after the run.
    pub dialogue: DialogueView,
    /// The settings after the run.
    pub options: OptionsView,
    /// How many of the lines were read.
    pub used: nat,
}

/// What the lines `lines`, typed one after the other, lead to from `d` and
/// `o`. The lines are read until the dialogue is done or the lines have run
/// out; lines behind the last answer are not read.
pub open spec fn replay(d: DialogueView, o: OptionsView, lines: Seq<Seq<char>>) -> Replay
    decreases lines.len(),
{
    if lines.len() == 0 || d.stage == Stage::Done {
        Replay { dialogue: d, options: o, used: 0 }
    } else {
        let next = step(d, o, lines[0]);
        let rest = replay(next.dialogue, next.options, lines.skip(1));
        Replay { used: rest.used + 1, ..rest }
    }
}

/// Asks every question of the dialogue in turn and fills in `options` from
/// the answers in `lines`, one line to an answer, as [`replay`] says. An
/// answer that is turned down is asked for again, so it takes up a line and
/// changes nothing. Returns how many lines were read once every question is
/// answered, or the question at which the lines ran out.
pub fn new_game(options: &mut Options, lines: &Vec<String>) -> (end: Result<usize, Stage>)
    ensures
        final(options)@.wf(),
        final(options)@ == replay(
            DialogueView::start(),
            old(options)@,
            lines.deep_view(),
        ).options,
        end == (match replay(DialogueView::start(), old(options)@, lines.deep_view()) {
            Replay { dialogue, options, used } => if dialogue.stage == Stage::Done {
                Ok::<usize, Stage>(used as usize)
            } else {
                Err::<usize, Stage>(dialogue.stage)
            },
        }),
{
    let ghost all = lines.deep_view();
    let ghost whole = replay(DialogueView::start(), options@, all);
    let mut dialogue = Dialogue::new();
    let mut i: usize = 0;
    assert(all.skip(0) =~= all);
    while i < lines.len() && !dialogue.is_done()
        invariant
            i <= lines.len(),
            all == lines.deep_view(),
            whole.dialogue == replay(dialogue@, options@, all.skip(i as int)).dialogue,
            whole.options == replay(dialogue@, options@, all.skip(i as int)).options,
            whole.used == i + replay(dialogue@, options@, all.skip(i as int)).used,
        decreases lines.len() - i,
    {
        proof {
            let rest = all.skip(i as int);
            assert(rest[0] == lines[i as int]@);
            assert(rest.skip(1) =~= all.skip(i + 1));
        }
        let _ = dialogue.answer(options, lines[i].as_str());
        i += 1;
    }
    proof {
        use_type_invariant(&*options);
    }
    if dialogue.is_done() {
        Ok(i)
    } else {
        Err(dialogue.stage())
    }
}

/// A line that is turned down leaves the settings as they were, and leaves
/// the dialogue at its question, unless it is an upper bound that does not
/// lie above the lower bound: then the lower bound is asked for again.
pub proof fn lemma_rejected_answer_changes_nothing(
    d: DialogueView,
    o: OptionsView,
    line: Seq<char>,
)
    requires
        d.wf(),
    ensures
        step(d, o, line).outcome is Err ==> step(d, o, line).options == o,
        step(d, o, line).outcome is Err ==> step(d, o, line).dialogue == (if step(
            d,
            o,
            line,
        ).outcome == Err::<(), InputError>(InputError::RangeOrderViolation) {
            d.at(Stage::RangeLower)
        } else {
            d
        }),
{
}

/// Sound settings stay sound, and a sound dialogue stays sound, whatever is
/// typed: the range always ascends and its names always decode to it.
pub proof fn lemma_step_keeps_sound(d: DialogueView, o: OptionsView, line: Seq<char>)
    requires
        d.wf(),
        o.wf(),
    ensures
        step(d, o, line).dialogue.wf(),
        step(d, o, line).options.wf(),
{
    lemma_canonical_keeps_pitch(trimmed(line));
}

/// Two note names of which the second does not decode to a higher pitch
/// than the first are turned down as a range: the settings stay as they
/// were and the lower bound is asked for again.
pub proof fn lemma_descending_range_is_rejected(
    o: OptionsView,
    lower: Seq<char>,
    upper: Seq<char>,
)
    requires
        decode(trimmed(lower)) is Ok,
        decode(trimmed(upper)) is Ok,
        decode(trimmed(lower))->Ok_0 >= decode(trimmed(upper))->Ok_0,
    ensures
        ({
            let first = step(DialogueView::start().at(Stage::RangeLower), o, lower);
            let second = step(first.dialogue, first.options, upper);
            &&& first.outcome is Ok
            &&& second.outcome == Err::<(), InputError>(InputError::RangeOrderViolation)
            &&& second.options == o
            &&& second.dialogue == DialogueView::start().at(Stage::RangeLower)
        }),
{
}

/// Two note names of which the second decodes to a higher pitch than the
/// first set the range to those two pitches and its names to the two names
/// as shown, and nothing else.
pub proof fn lemma_ascending_range_is_committed(
    o: OptionsView,
    lower: Seq<char>,
    upper: Seq<char>,
)
    requires
        decode(trimmed(lower)) is Ok,
        decode(trimmed(upper)) is Ok,
        decode(trimmed(lower))->Ok_0 < decode(trimmed(upper))->Ok_0,
    ensures
        ({
            let first = step(DialogueView::start().at(Stage::RangeLower), o, lower);
            let second = step(first.dialogue, first.options, upper);
            &&& first.outcome is Ok
            &&& first.options == o
            &&& second.outcome is Ok
            &&& second.dialogue == DialogueView::start().at(Stage::AllowRepeat)
            &&& second.options == (OptionsView {
                range: (decode(trimmed(lower))->Ok_0, decode(trimmed(upper))->Ok_0),
                range_names: (canonical(trimmed(lower)), canonical(trimmed(upper))),
                ..o
            })
        }),
{
}

} // verus!
