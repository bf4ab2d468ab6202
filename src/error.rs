//! Errors of the protocol layer.
use vstd::prelude::*;
use crate::constants::CommandId;

verus! {

/// What can go wrong when building, reading or driving frames.
#[derive(Clone, Debug, PartialEq, Eq)]
pub enum LumatoneMidiError {
    /// A command was asked for with an input it does not accept.
    InvalidCommandInput(CommandId, String),
    /// The bytes are not a frame of this protocol.
    NotLumatoneMessage(Vec<u8>),
    /// The frame carries another command than the one expected.
    UnexpectedCommandId { expected: CommandId, actual: CommandId },
    /// The frame is shorter than its header.
    MessageTooShort { expected: usize, actual: usize },
    /// The frame's command byte names no known command.
    UnknownCommandId(u8),
    /// The payload is shorter than the command needs.
    MessagePayloadTooShort { expected: usize, actual: usize },
    /// The frame is well formed but its content is not a valid answer.
    InvalidResponseMessage(String),
    /// The state machine was handed an action that its state cannot take.
    InvalidStateTransition,
}

} // verus!
