//! The schema initializer: connect, apply the schema batch, close.

use crate::protocol::{Action, Event};
use crate::report::WriteResult;
use crate::statement::Statement;
use vstd::prelude::*;

verus! {

/// Where the schema initializer stands: the action that it issued last.
#[derive(Debug, PartialEq, Eq)]
pub enum SchemaPhase {
    /// `Connect` is pending.
    Connecting,
    /// `Execute(Schema)` is pending on the open connection.
    Executing,
    /// `Close` is pending; what the schema batch returned.
    Closing(Result<WriteResult, String>),
}

/// What an event does to the schema initializer.
#[derive(Debug, PartialEq, Eq)]
pub enum SchemaStep {
    /// It goes on: the phase it is in now and the action to perform.
    Pending(SchemaPhase, Action),
    /// It ended, with no connection open: the result of the schema batch, or
    /// the text of the failure that kept the schema from being applied.
    Settled(Result<WriteResult, String>),
    /// The event does not answer the pending action.
    OutOfTurn,
}

/// The phase and the action with which the schema initializer begins.
pub open spec fn create_schema_entry() -> (SchemaPhase, Action) {
    (SchemaPhase::Connecting, Action::Connect)
}

/// The schema initializer's transition. A failed connect settles at once:
/// there is nothing to close. Once connected, whatever the schema batch
/// returns is kept until the connection has been closed.
pub open spec fn create_schema_step(phase: SchemaPhase, event: Event) -> SchemaStep {
    match (phase, event) {
        (SchemaPhase::Connecting, Event::Connected(Ok(_))) => SchemaStep::Pending(
            SchemaPhase::Executing,
            Action::Execute(Statement::Schema),
        ),
        (SchemaPhase::Connecting, Event::Connected(Err(detail))) => SchemaStep::Settled(
            Err(detail),
        ),
        (SchemaPhase::Executing, Event::Executed(outcome)) => SchemaStep::Pending(
            SchemaPhase::Closing(outcome),
            Action::Close,
        ),
        (SchemaPhase::Closing(outcome), Event::Closed) => SchemaStep::Settled(outcome),
        _ => SchemaStep::OutOfTurn,
    }
}

/// Starts the schema initializer.
pub fn begin_create_schema() -> (entry: (SchemaPhase, Action))
    ensures
        entry == create_schema_entry(),
{
    (SchemaPhase::Connecting, Action::Connect)
}

/// Advances the schema initializer by one event.
pub fn create_schema(phase: SchemaPhase, event: Event) -> (step: SchemaStep)
    ensures
        step == create_schema_step(phase, event),
{
    match phase {
        SchemaPhase::Connecting => match event {
            Event::Connected(Ok(_)) => SchemaStep::Pending(
                SchemaPhase::Executing,
                Action::Execute(Statement::Schema),
            ),
            Event::Connected(Err(detail)) => SchemaStep::Settled(Err(detail)),
            _ => SchemaStep::OutOfTurn,
        },
        SchemaPhase::Executing => match event {
            Event::Executed(outcome) => SchemaStep::Pending(
                SchemaPhase::Closing(outcome),
                Action::Close,
            ),
            _ => SchemaStep::OutOfTurn,
        },
        SchemaPhase::Closing(outcome) => match event {
            Event::Closed => SchemaStep::Settled(outcome),
            _ => SchemaStep::OutOfTurn,
        },
    }
}

} // verus!
