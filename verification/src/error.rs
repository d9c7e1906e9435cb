//! The ways in which the engine gives up.

use vstd::prelude::*;
use vstd::string::*;

verus! {

/// A fatal condition. None of them is retried.
#[derive(Debug, Clone, PartialEq, Eq)]
pub enum LoraError {
    /// The radio answered something other than what the protocol allows at
    /// that point; the text says what.
    Protocol(String),
    /// A channel to another task was found closed.
    Disconnected,
    /// The engine was handed an event that does not answer what it last asked
    /// for, or was started while an operation was outstanding.
    OutOfTurn,
}

/// What a `LoraError` stands for.
pub enum Failure {
    Protocol(Seq<char>),
    Disconnected,
    OutOfTurn,
}

impl View for LoraError {
    type V = Failure;

    open spec fn view(&self) -> Failure {
        match self {
            LoraError::Protocol(text) => Failure::Protocol(text@),
            LoraError::Disconnected => Failure::Disconnected,
            LoraError::OutOfTurn => Failure::OutOfTurn,
        }
    }
}

impl LoraError {
    /// The text to show for this error.
    pub open spec fn text(self) -> Seq<char> {
        match self {
            LoraError::Protocol(text) => text@,
            LoraError::Disconnected => "Channel disconnected"@,
            LoraError::OutOfTurn => "Event out of turn"@,
        }
    }

    /// The text to show for this error.
    pub fn message(&self) -> (text: String)
        ensures
            text@ == self.text(),
    {
        match self {
            LoraError::Protocol(text) => text.clone(),
            LoraError::Disconnected => String::from_str("Channel disconnected"),
            LoraError::OutOfTurn => String::from_str("Event out of turn"),
        }
    }
}

} // verus!
