//! The switch of the speakers on the fourth relay line: what a command-line
//! argument asks for, and what is printed of the line's state.

use crate::text::same_text;
use vstd::prelude::*;

verus! {

/// What the speaker switch is asked to do.
#[derive(Clone, Copy, Debug, PartialEq, Eq, Structural)]
pub enum SpeakerCommand {
    /// Switch the speakers on: the line is made active and left so.
    On,
    /// Switch the speakers off: the line is made inactive and left so.
    Off,
    /// Print whether the speakers are on.
    Status,
}

/// The request that an argument stands for: the argument is exactly one of
/// the words `on`, `off` and `status`, or it stands for nothing.
pub open spec fn speaker_command(argument: Option<Seq<char>>) -> Option<SpeakerCommand> {
    match argument {
        Some(word) => if word == "on"@ {
            Some(SpeakerCommand::On)
        } else if word == "off"@ {
            Some(SpeakerCommand::Off)
        } else if word == "status"@ {
            Some(SpeakerCommand::Status)
        } else {
            None
        },
        None => None,
    }
}

/// What is printed of a line: `unknown` where it is not an output,
/// otherwise `on` where it is active and `off` where it is not.
pub open spec fn speaker_text(is_output: bool, active: bool) -> Seq<char> {
    if !is_output {
        "unknown"@
    } else if active {
        "on"@
    } else {
        "off"@
    }
}

/// The request that the first argument stands for, if there is an argument
/// and it stands for one.
pub fn parse_speaker_argument(argument: Option<&str>) -> (command: Option<SpeakerCommand>)
    ensures
        command == speaker_command(
            match argument {
                Some(word) => Some(word@),
                None => None,
            },
        ),
{
    match argument {
        Some(word) => {
            if same_text(word, "on") {
                Some(SpeakerCommand::On)
            } else if same_text(word, "off") {
                Some(SpeakerCommand::Off)
            } else if same_text(word, "status") {
                Some(SpeakerCommand::Status)
            } else {
                None
            }
        },
        None => None,
    }
}

/// What is printed of the speaker line, given whether it is an output and
/// whether it is active.
pub fn speaker_status(is_output: bool, active: bool) -> (text: &'static str)
    ensures
        text@ == speaker_text(is_output, active),
{
    if is_output {
        if active {
            "on"
        } else {
            "off"
        }
    } else {
        "unknown"
    }
}

} // verus!
