//! The commands that a contract may invoke, by number.

use crate::error::Error;
use vstd::prelude::*;

verus! {

/// One of the six operations of the bridge.
#[derive(Clone, Copy, Debug, PartialEq, Eq, Structural)]
pub enum Command {
    /// Decode a message, price it and stage it for execution.
    PrepareExecute,
    /// Execute the staged message, charging the quoted cost.
    Execute,
    /// Decode a destination and a message and stage them for sending.
    ValidateSend,
    /// Send the staged message.
    Send,
    /// Register a query whose responder is the caller.
    NewQuery,
    /// Poll a query for its response.
    TakeResponse,
}

impl Command {
    /// The number by which the caller names this command.
    pub open spec fn spec_func_id(self) -> u16 {
        match self {
            Command::PrepareExecute => 0,
            Command::Execute => 1,
            Command::ValidateSend => 2,
            Command::Send => 3,
            Command::NewQuery => 4,
            Command::TakeResponse => 5,
        }
    }

    /// The command that `func_id` names, if any.
    pub open spec fn spec_from_func_id(func_id: u16) -> Result<Command, Error> {
        if func_id == 0 {
            Ok(Command::PrepareExecute)
        } else if func_id == 1 {
            Ok(Command::Execute)
        } else if func_id == 2 {
            Ok(Command::ValidateSend)
        } else if func_id == 3 {
            Ok(Command::Send)
        } else if func_id == 4 {
            Ok(Command::NewQuery)
        } else if func_id == 5 {
            Ok(Command::TakeResponse)
        } else {
            Err(Error::InvalidCommand)
        }
    }

    #[verifier::when_used_as_spec(spec_func_id)]
    pub fn func_id(self) -> (id: u16)
        ensures
            id == self.spec_func_id(),
    {
        match self {
            Command::PrepareExecute => 0,
            Command::Execute => 1,
            Command::ValidateSend => 2,
            Command::Send => 3,
            Command::NewQuery => 4,
            Command::TakeResponse => 5,
        }
    }

    /// Demultiplexes a command id; an id outside `0..=5` is `InvalidCommand`.
    pub fn from_func_id(func_id: u16) -> (result: Result<Command, Error>)
        ensures
            result == Command::spec_from_func_id(func_id),
            result is Ok <==> func_id <= 5,
            result matches Ok(c) ==> c.spec_func_id() == func_id,
            result matches Err(e) ==> e == Error::InvalidCommand,
    {
        match func_id {
            0 => Ok(Command::PrepareExecute),
            1 => Ok(Command::Execute),
            2 => Ok(Command::ValidateSend),
            3 => Ok(Command::Send),
            4 => Ok(Command::NewQuery),
            5 => Ok(Command::TakeResponse),
            _ => Err(Error::InvalidCommand),
        }
    }
}

/// A command is found again under its own number.
pub proof fn lemma_func_id_round_trip(command: Command)
    ensures
        Command::spec_from_func_id(command.spec_func_id()) == Ok::<Command, Error>(command),
{
}

} // verus!
