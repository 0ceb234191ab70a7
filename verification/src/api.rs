//! The decisions behind the network interface: which request a body stands
//! for, what is sent to the door for it, and what is answered.

use crate::cistern::{Cistern, Snapshot, FULL_SCALE};
use crate::door::{command_millis, command_plan, safe_plan, Command, GarageDoor};
use crate::relay::{duration, Relays, Step};
use crate::text::{same_bytes, same_text};
use vstd::prelude::*;
use vstd::string::StringSliceAdditionalSpecFns;
use vstd::utf8::is_ascii_chars_encode_utf8;

verus! {

/// The request that the body of a door-control call stands for: the body is
/// exactly one of the words `OPEN`, `STOP` and `CLOSE`, or it stands for
/// nothing.
pub open spec fn body_command(body: Seq<u8>) -> Option<Command> {
    if body == "OPEN".spec_bytes() {
        Some(Command::Open)
    } else if body == "STOP".spec_bytes() {
        Some(Command::Stop)
    } else if body == "CLOSE".spec_bytes() {
        Some(Command::Close)
    } else {
        None
    }
}

/// The request that a command-line argument stands for: the argument is
/// exactly one of the words `open`, `stop` and `close`, or it stands for
/// nothing.
pub open spec fn argument_command(argument: Seq<char>) -> Option<Command> {
    if argument == "open"@ {
        Some(Command::Open)
    } else if argument == "stop"@ {
        Some(Command::Stop)
    } else if argument == "close"@ {
        Some(Command::Close)
    } else {
        None
    }
}

/// The three words of the door-control call, byte by byte.
pub proof fn lemma_command_words()
    ensures
        "OPEN".spec_bytes() == seq![0x4fu8, 0x50, 0x45, 0x4e],
        "STOP".spec_bytes() == seq![0x53u8, 0x54, 0x4f, 0x50],
        "CLOSE".spec_bytes() == seq![0x43u8, 0x4c, 0x4f, 0x53, 0x45],
{
    reveal_strlit("OPEN");
    reveal_strlit("STOP");
    reveal_strlit("CLOSE");
    is_ascii_chars_encode_utf8("OPEN"@);
    is_ascii_chars_encode_utf8("STOP"@);
    is_ascii_chars_encode_utf8("CLOSE"@);
    assert("OPEN".spec_bytes() =~= seq![0x4fu8, 0x50, 0x45, 0x4e]);
    assert("STOP".spec_bytes() =~= seq![0x53u8, 0x54, 0x4f, 0x50]);
    assert("CLOSE".spec_bytes() =~= seq![0x43u8, 0x4c, 0x4f, 0x53, 0x45]);
}

/// The request that the body of a door-control call stands for, if any.
pub fn parse_body(body: &[u8]) -> (command: Option<Command>)
    ensures
        command == body_command(body@),
{
    if same_bytes(body, "OPEN".as_bytes()) {
        Some(Command::Open)
    } else if same_bytes(body, "STOP".as_bytes()) {
        Some(Command::Stop)
    } else if same_bytes(body, "CLOSE".as_bytes()) {
        Some(Command::Close)
    } else {
        None
    }
}

/// The request that a command-line argument stands for, if any.
pub fn parse_argument(argument: &str) -> (command: Option<Command>)
    ensures
        command == argument_command(argument@),
{
    if same_text(argument, "open") {
        Some(Command::Open)
    } else if same_text(argument, "stop") {
        Some(Command::Stop)
    } else if same_text(argument, "close") {
        Some(Command::Close)
    } else {
        None
    }
}

/// How a door-control call is answered.
#[derive(Clone, Copy, Debug, PartialEq, Eq, Structural)]
pub enum Status {
    /// The request was understood and its plan given out.
    Success,
    /// The body stands for no request.
    NotImplemented,
}

impl Status {
    /// The number of the status on the wire.
    pub open spec fn number(self) -> u16 {
        match self {
            Status::Success => 200,
            Status::NotImplemented => 501,
        }
    }

    /// The number of the status on the wire.
    pub fn code(&self) -> (code: u16)
        ensures
            code == self.number(),
    {
        match self {
            Status::Success => 200,
            Status::NotImplemented => 501,
        }
    }
}

/// The answer to a door-control call: the status, and the commands for the
/// driver of the relay lines to carry out before the answer is sent.
#[derive(Debug)]
pub struct ControlReply {
    pub status: Status,
    pub plan: Vec<Step>,
}

/// Serves a door-control call with the given body. A body that is one of
/// the three words has the plan of its request given out and is answered
/// with `Success`. Any other body is answered with `NotImplemented`: nothing is
/// sent to the lines, and the door is left as it was.
pub fn door_control_handler(door: &mut GarageDoor, body: &[u8]) -> (reply: ControlReply)
    ensures
        match body_command(body@) {
            Some(command) => {
                &&& reply.status == Status::Success
                &&& reply.plan@ == command_plan(command, old(door).closed())
                &&& safe_plan(reply.plan@)
                &&& duration(reply.plan@) == command_millis(command, old(door).closed())
                &&& final(door).relays() == Relays::idle()
                &&& final(door).closed() == old(door).closed()
            },
            None => {
                &&& reply.status == Status::NotImplemented
                &&& reply.plan@ == Seq::<Step>::empty()
                &&& *final(door) == *old(door)
            },
        },
{
    match parse_body(body) {
        Some(command) => {
            let plan = door.perform(command);
            ControlReply { status: Status::Success, plan }
        },
        None => ControlReply { status: Status::NotImplemented, plan: Vec::new() },
    }
}

/// The text that a door-status call is answered with.
pub open spec fn status_text(closed: bool) -> Seq<char> {
    if closed {
        "CLOSED"@
    } else {
        "OPEN"@
    }
}

/// Serves a door-status call: `CLOSED` where the sensor last read "fully
/// closed", `OPEN` where it did not. The door is left as it was.
pub fn door_status_handler(door: &mut GarageDoor) -> (text: &'static str)
    ensures
        text@ == status_text(old(door).closed()),
        *final(door) == *old(door),
{
    if door.is_closed() {
        "CLOSED"
    } else {
        "OPEN"
    }
}

/// What a cistern-level call is answered with, once a level has been
/// measured.
#[derive(Clone, Copy, Debug, PartialEq, Eq, Structural)]
pub struct LevelReport {
    /// The height of the water, in millimetres.
    pub fill_height: u32,
    /// The filled part of the tank in percent, in millionths of a percent.
    pub percentage: u32,
    /// The volume of the water, in the unit of the capacity.
    pub volume: u32,
}

/// The report of `level`: its height and volume as they are, and its
/// fraction times one hundred, as a percentage.
pub open spec fn report_of(level: Snapshot) -> LevelReport {
    LevelReport {
        fill_height: level.height,
        percentage: (level.percentage * 100) as u32,
        volume: level.volume,
    }
}

/// Serves a cistern-level call: the report of the last level measured, or
/// nothing where no level has been measured yet.
pub fn cistern_level_handler(cistern: &Cistern) -> (report: Option<LevelReport>)
    ensures
        report == match cistern.snapshot() {
            Some(level) => Some(report_of(level)),
            None => None,
        },
        report matches Some(shown) ==> shown.percentage == cistern.snapshot().unwrap().percentage
            * 100 && shown.percentage <= 100 * FULL_SCALE,
{
    match cistern.level() {
        Some(level) => Some(
            LevelReport {
                fill_height: level.height,
                percentage: level.percentage * 100,
                volume: level.volume,
            },
        ),
        None => None,
    }
}

} // verus!
