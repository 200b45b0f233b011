//! What is decided about the sound device: which port to use and which
//! bytes make a note sound.

use vstd::prelude::*;
use crate::text::{code_below, parse_below, trim, trimmed};

verus! {

/// The status byte that starts a note.
pub const NOTE_ON_MSG: u8 = 0x90;

/// The status byte that ends a note.
pub const NOTE_OFF_MSG: u8 = 0x80;

/// How hard every note is struck.
pub const VELOCITY: u8 = 100;

/// How many milliseconds one unit of duration lasts.
pub const UNIT_MILLIS: u64 = 150;

/// What to do about the output port, given how many there are.
#[derive(Clone, Copy, Debug, PartialEq, Eq, Structural)]
pub enum PortPlan {
    /// There is no port: nothing can be played.
    NoPort,
    /// There is one port: it is used without asking.
    Only,
    /// There are several ports: the user is asked for one.
    Ask,
}

/// The plan for `count` ports.
pub open spec fn plan_for(count: nat) -> PortPlan {
    if count == 0 {
        PortPlan::NoPort
    } else if count == 1 {
        PortPlan::Only
    } else {
        PortPlan::Ask
    }
}

/// The port that the line `line` picks among `count` ports, numbered from
/// zero: the blanks around the line do not count, and what is left must be
/// a numeral below `count`.
pub open spec fn port_picked(line: Seq<char>, count: nat) -> Option<nat> {
    match code_below(trimmed(line), count) {
        Ok(port) => Some(port),
        Err(_) => None,
    }
}

/// What to do about the output port, given how many there are.
pub fn plan_port(count: usize) -> (plan: PortPlan)
    ensures
        plan == plan_for(count as nat),
{
    if count == 0 {
        PortPlan::NoPort
    } else if count == 1 {
        PortPlan::Only
    } else {
        PortPlan::Ask
    }
}

/// The port that a typed line picks among `count` ports; `None` where it
/// picks none, and the question is to be asked again.
pub fn select_port(line: &str, count: usize) -> (port: Option<usize>)
    ensures
        port is Some <==> port_picked(line@, count as nat) is Some,
        port is Some ==> port->Some_0 as nat == port_picked(line@, count as nat)->Some_0,
        port is Some ==> port->Some_0 < count,
{
    match parse_below(trim(line), count) {
        Ok(port) => Some(port),
        Err(_) => None,
    }
}

/// The message that starts the note of pitch `pitch`.
pub fn note_on(pitch: u8) -> (message: [u8; 3])
    ensures
        message@ == seq![NOTE_ON_MSG, pitch, VELOCITY],
{
    let message: [u8; 3] = [NOTE_ON_MSG, pitch, VELOCITY];
    message
}

/// The message that ends the note of pitch `pitch`.
pub fn note_off(pitch: u8) -> (message: [u8; 3])
    ensures
        message@ == seq![NOTE_OFF_MSG, pitch, VELOCITY],
{
    let message: [u8; 3] = [NOTE_OFF_MSG, pitch, VELOCITY];
    message
}

/// How many milliseconds a note of `duration` units is held: 150 for each
/// unit, and no more than fits where that is too many to count.
pub fn hold_millis(duration: u64) -> (millis: u64)
    ensures
        millis as int == if duration * UNIT_MILLIS <= u64::MAX {
            duration * UNIT_MILLIS
        } else {
            u64::MAX as int
        },
{
    if duration > u64::MAX / UNIT_MILLIS {
        u64::MAX
    } else {
        duration * UNIT_MILLIS
    }
}

} // verus!
