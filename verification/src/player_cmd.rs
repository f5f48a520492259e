//! The closed set of transport commands, their one-byte wire form, and the
//! choice of the local player a command is handed to.

use vstd::prelude::*;

verus! {

/// A transport control command for the local player.
#[derive(Copy, Clone, Debug, PartialEq, Eq, Structural)]
pub enum PlayerCmd {
    Play,
    Pause,
    PlayPause,
}

/// Number of command variants; the wire bytes are exactly `0..NUM_PLAYER_CMDS`.
pub const NUM_PLAYER_CMDS: u8 = 3;

/// A byte that names no command.
#[derive(Copy, Clone, Debug, PartialEq, Eq, Structural)]
pub struct InvalidCommand;

impl PlayerCmd {
    /// The wire byte of a command.
    pub open spec fn wire(self) -> u8 {
        match self {
            PlayerCmd::Play => 0,
            PlayerCmd::Pause => 1,
            PlayerCmd::PlayPause => 2,
        }
    }

    /// The command a wire byte stands for, if any.
    pub open spec fn from_wire(value: u8) -> Option<PlayerCmd> {
        if value == 0 {
            Some(PlayerCmd::Play)
        } else if value == 1 {
            Some(PlayerCmd::Pause)
        } else if value == 2 {
            Some(PlayerCmd::PlayPause)
        } else {
            None
        }
    }

    /// Encodes a command as its wire byte.
    pub fn encode(self) -> (byte: u8)
        ensures
            byte == self.wire(),
            byte < NUM_PLAYER_CMDS,
            PlayerCmd::from_wire(byte) == Some(self),
    {
        match self {
            PlayerCmd::Play => 0,
            PlayerCmd::Pause => 1,
            PlayerCmd::PlayPause => 2,
        }
    }

    /// Decodes a wire byte. Succeeds exactly on the bytes below
    /// `NUM_PLAYER_CMDS`, with the command whose wire byte it is.
    pub fn try_from(value: u8) -> (decoded: Result<PlayerCmd, InvalidCommand>)
        ensures
            decoded.ok() == PlayerCmd::from_wire(value),
            decoded is Ok <==> value < NUM_PLAYER_CMDS,
            decoded matches Ok(cmd) ==> cmd.wire() == value,
    {
        match value {
            0 => Ok(PlayerCmd::Play),
            1 => Ok(PlayerCmd::Pause),
            2 => Ok(PlayerCmd::PlayPause),
            _ => Err(InvalidCommand),
        }
    }

    /// Decoding the wire byte of a command gives that command back.
    pub proof fn lemma_decode_encode(cmd: PlayerCmd)
        ensures
            PlayerCmd::from_wire(cmd.wire()) == Some(cmd),
    {
    }

    /// Encoding whatever a byte decodes to gives that byte back.
    pub proof fn lemma_encode_decode(value: u8)
        ensures
            PlayerCmd::from_wire(value) matches Some(cmd) ==> cmd.wire() == value,
    {
    }

    /// Two commands with the same wire byte are the same command.
    pub proof fn lemma_wire_injective(a: PlayerCmd, b: PlayerCmd)
        requires
            a.wire() == b.wire(),
        ensures
            a == b,
    {
    }

    /// The wire bytes are the dense range below `NUM_PLAYER_CMDS`: every byte
    /// in it decodes, and no byte at or above it does.
    pub proof fn lemma_wire_range(value: u8)
        ensures
            value < NUM_PLAYER_CMDS <==> PlayerCmd::from_wire(value) is Some,
            value >= NUM_PLAYER_CMDS ==> PlayerCmd::from_wire(value) is None,
    {
    }
}

/// Why a command could not be carried out on the local player.
#[derive(Copy, Clone, Debug, PartialEq, Eq, Structural)]
pub enum FindingError {
    /// No running player goes by the identity asked for.
    NoPlayerFound,
    /// The player bus could not be reached, or the player refused the call.
    DBusError,
}

/// The control call to make: which of the listed players, and what to ask of it.
#[derive(Copy, Clone, Debug, PartialEq, Eq, Structural)]
pub struct ControlRequest {
    /// Position of the player in the listing that was searched.
    pub player: usize,
    pub cmd: PlayerCmd,
}

/// `at` is the first position in `identities` that holds `wanted`.
pub open spec fn is_first_match(identities: Seq<String>, wanted: Seq<char>, at: int) -> bool {
    &&& 0 <= at < identities.len()
    &&& identities[at]@ == wanted
    &&& forall|j: int| 0 <= j < at ==> (#[trigger] identities[j])@ != wanted
}

/// No position in `identities` holds `wanted`.
pub open spec fn no_match(identities: Seq<String>, wanted: Seq<char>) -> bool {
    forall|j: int| 0 <= j < identities.len() ==> (#[trigger] identities[j])@ != wanted
}

/// Chooses the player a command goes to: the first one in `listing` whose
/// identity equals `player_identity`.
///
/// `listing` holds the identities of the running players in the order the
/// player bus reported them, or `None` where the bus could not be reached.
pub fn perform(listing: Option<&Vec<String>>, player_identity: &str, cmd: PlayerCmd) -> (request:
    Result<ControlRequest, FindingError>)
    ensures
        listing is None ==> request == Err::<ControlRequest, FindingError>(FindingError::DBusError),
        listing matches Some(identities) ==> match request {
            Ok(req) => req.cmd == cmd && is_first_match(
                identities@,
                player_identity@,
                req.player as int,
            ),
            Err(e) => e == FindingError::NoPlayerFound && no_match(identities@, player_identity@),
        },
{
    let identities = match listing {
        Some(identities) => identities,
        None => {
            return Err(FindingError::DBusError);
        },
    };
    let wanted = player_identity.to_owned();
    let mut i: usize = 0;
    while i < identities.len()
        invariant
            i <= identities.len(),
            listing == Some(identities),
            wanted@ == player_identity@,
            forall|j: int| 0 <= j < i ==> (#[trigger] identities@[j])@ != player_identity@,
        decreases identities.len() - i,
    {
        if identities[i] == wanted {
            return Ok(ControlRequest { player: i, cmd });
        }
        i += 1;
    }
    Err(FindingError::NoPlayerFound)
}

impl ControlRequest {
    /// What the dispatch of this request comes to, given whether the player
    /// accepted the control call.
    pub fn outcome(&self, accepted: bool) -> (result: Result<(), FindingError>)
        ensures
            accepted ==> result == Ok::<(), FindingError>(()),
            !accepted ==> result == Err::<(), FindingError>(FindingError::DBusError),
    {
        if accepted {
            Ok(())
        } else {
            Err(FindingError::DBusError)
        }
    }
}

} // verus!
