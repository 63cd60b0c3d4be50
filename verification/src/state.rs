//! Lifecycle states, command kinds, and the table of legal transitions.

use vstd::prelude::*;

verus! {

/// Where the vehicle is in its flight lifecycle.
#[derive(Clone, Copy, Debug, PartialEq, Eq, Structural)]
pub enum DroneState {
    Disarmed,
    Armed,
    Flying,
    Landing,
}

/// The commands of the facade, without their parameters.
#[derive(Clone, Copy, Debug, PartialEq, Eq, Structural)]
pub enum CommandKind {
    Connect,
    Arm,
    Takeoff,
    Land,
    Status,
}

/// The state a command must be issued from; `None` where any state will do.
pub open spec fn required_state(command: CommandKind) -> Option<DroneState> {
    match command {
        CommandKind::Connect => None,
        CommandKind::Arm => Some(DroneState::Disarmed),
        CommandKind::Takeoff => Some(DroneState::Armed),
        CommandKind::Land => Some(DroneState::Flying),
        CommandKind::Status => None,
    }
}

/// Whether the transition table lets `command` be issued from `state`.
pub open spec fn permitted(state: DroneState, command: CommandKind) -> bool {
    match required_state(command) {
        None => true,
        Some(needed) => state == needed,
    }
}

/// The state after `command`, issued from `state`, has gone through.
pub open spec fn resulting_state(state: DroneState, command: CommandKind) -> DroneState {
    match command {
        CommandKind::Connect => state,
        CommandKind::Arm => DroneState::Armed,
        CommandKind::Takeoff => DroneState::Flying,
        CommandKind::Land => DroneState::Landing,
        CommandKind::Status => state,
    }
}

impl DroneState {
    /// The state's name as a sequence of characters.
    pub open spec fn name_text(self) -> Seq<char> {
        match self {
            DroneState::Disarmed => "Disarmed"@,
            DroneState::Armed => "Armed"@,
            DroneState::Flying => "Flying"@,
            DroneState::Landing => "Landing"@,
        }
    }

    /// The state's name.
    pub fn name(self) -> (r: &'static str)
        ensures
            r@ == self.name_text(),
    {
        match self {
            DroneState::Disarmed => "Disarmed",
            DroneState::Armed => "Armed",
            DroneState::Flying => "Flying",
            DroneState::Landing => "Landing",
        }
    }
}

impl CommandKind {
    /// The command's name as a sequence of characters.
    pub open spec fn name_text(self) -> Seq<char> {
        match self {
            CommandKind::Connect => "connect"@,
            CommandKind::Arm => "arm"@,
            CommandKind::Takeoff => "takeoff"@,
            CommandKind::Land => "land"@,
            CommandKind::Status => "status"@,
        }
    }

    /// The command's name.
    pub fn name(self) -> (r: &'static str)
        ensures
            r@ == self.name_text(),
    {
        match self {
            CommandKind::Connect => "connect",
            CommandKind::Arm => "arm",
            CommandKind::Takeoff => "takeoff",
            CommandKind::Land => "land",
            CommandKind::Status => "status",
        }
    }

    /// The state this command must be issued from, if it needs one.
    pub fn required(self) -> (r: Option<DroneState>)
        ensures
            r == required_state(self),
    {
        match self {
            CommandKind::Connect => None,
            CommandKind::Arm => Some(DroneState::Disarmed),
            CommandKind::Takeoff => Some(DroneState::Armed),
            CommandKind::Land => Some(DroneState::Flying),
            CommandKind::Status => None,
        }
    }

    /// The state that follows once this command, issued from `state`, has
    /// gone through.
    pub fn outcome(self, state: DroneState) -> (r: DroneState)
        ensures
            r == resulting_state(state, self),
    {
        match self {
            CommandKind::Connect => state,
            CommandKind::Arm => DroneState::Armed,
            CommandKind::Takeoff => DroneState::Flying,
            CommandKind::Land => DroneState::Landing,
            CommandKind::Status => state,
        }
    }
}

/// A command that needs a state is permitted from that state and from no
/// other, and a permitted command that changes the state never leaves it
/// where a second issue of the same command would be permitted.
pub proof fn lemma_table_is_a_chain(state: DroneState, command: CommandKind)
    ensures
        required_state(command) matches Some(needed) ==> (permitted(state, command) <==> state
            == needed),
        required_state(command) is Some ==> !permitted(resulting_state(state, command), command),
        required_state(command) is None ==> permitted(state, command) && resulting_state(
            state,
            command,
        ) == state,
{
}

} // verus!
