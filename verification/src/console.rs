//! The operator's side of the relay: the one-character console commands and
//! the defaults of the command line.

use crate::player_cmd::PlayerCmd;
use vstd::prelude::*;

verus! {

/// The broker port used where none is given, or the one given is no port.
pub const DEFAULT_PORT: u16 = 1883;

/// The key `p`: toggle between play and pause.
pub const KEY_PLAY_PAUSE: u8 = 0x70;

/// The key `r`: resume playing.
pub const KEY_PLAY: u8 = 0x72;

/// The key `b`: pause.
pub const KEY_PAUSE: u8 = 0x62;

/// The line feed that ends a line of input.
pub const LINE_FEED: u8 = 0x0a;

/// What one byte typed at the console asks for.
#[derive(Copy, Clone, Debug, PartialEq, Eq, Structural)]
pub enum ConsoleInput {
    /// Send this command.
    Command(PlayerCmd),
    /// A line break: nothing to do.
    Skip,
    /// Not a console command: report it.
    Invalid,
}

/// The meaning of a console byte: `p` toggles play and pause, `r` resumes,
/// `b` pauses, a line feed is passed over, and nothing else is a command.
pub open spec fn console_meaning(byte: u8) -> ConsoleInput {
    if byte == KEY_PLAY_PAUSE {
        ConsoleInput::Command(PlayerCmd::PlayPause)
    } else if byte == KEY_PLAY {
        ConsoleInput::Command(PlayerCmd::Play)
    } else if byte == KEY_PAUSE {
        ConsoleInput::Command(PlayerCmd::Pause)
    } else if byte == LINE_FEED {
        ConsoleInput::Skip
    } else {
        ConsoleInput::Invalid
    }
}

/// Reads one byte typed at the console.
pub fn console_command(byte: u8) -> (input: ConsoleInput)
    ensures
        input == console_meaning(byte),
{
    if byte == KEY_PLAY_PAUSE {
        ConsoleInput::Command(PlayerCmd::PlayPause)
    } else if byte == KEY_PLAY {
        ConsoleInput::Command(PlayerCmd::Play)
    } else if byte == KEY_PAUSE {
        ConsoleInput::Command(PlayerCmd::Pause)
    } else if byte == LINE_FEED {
        ConsoleInput::Skip
    } else {
        ConsoleInput::Invalid
    }
}

/// The broker port to use: the one parsed from the command line, or
/// `DEFAULT_PORT` where the text there was no port number.
pub fn port_or_default(parsed: Option<u16>) -> (port: u16)
    ensures
        port == match parsed {
            Some(given) => given,
            None => DEFAULT_PORT,
        },
{
    match parsed {
        Some(given) => given,
        None => DEFAULT_PORT,
    }
}

/// The channel to use: the one named on the command line, or the name of the
/// player where none was named.
pub fn channel_or_player<'a>(named: Option<&'a str>, player: &'a str) -> (channel: &'a str)
    ensures
        channel@ == match named {
            Some(name) => name@,
            None => player@,
        },
{
    match named {
        Some(name) => name,
        None => player,
    }
}

} // verus!
