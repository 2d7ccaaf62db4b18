use vstd::prelude::*;

verus! {

/// Why a resolver skipped its unit of work for a tick.
#[derive(Clone, Copy, Debug, PartialEq, Eq, Structural)]
pub enum ErrorMessage {
    /// A lookup that expects exactly one entity (the player) found none.
    QuerySingle,
    /// An entity named by an event is gone or lacks the expected parts.
    QueryEntity,
    /// The game state was asked to change to the state it is already in.
    StateChange,
    NoWindow,
    NoCursorPosition,
    NoDestination,
}

pub open spec fn error_text(e: ErrorMessage) -> Seq<char> {
    match e {
        ErrorMessage::QuerySingle => "Query failed"@,
        ErrorMessage::QueryEntity => "Entity query failed"@,
        ErrorMessage::StateChange => "Cannot set game state"@,
        ErrorMessage::NoWindow => "No window"@,
        ErrorMessage::NoCursorPosition => "No cursor positon"@,
        ErrorMessage::NoDestination => "No entity destination"@,
    }
}

impl ErrorMessage {
    /// Text for the diagnostic log line.
    pub fn message(&self) -> (r: &'static str)
        ensures
            r@ == error_text(*self),
    {
        match self {
            ErrorMessage::QuerySingle => "Query failed",
            ErrorMessage::QueryEntity => "Entity query failed",
            ErrorMessage::StateChange => "Cannot set game state",
            ErrorMessage::NoWindow => "No window",
            ErrorMessage::NoCursorPosition => "No cursor positon",
            ErrorMessage::NoDestination => "No entity destination",
        }
    }
}

} // verus!
