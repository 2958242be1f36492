//! The seed writer: connect, insert one settings row, report what the store
//! returned, close.

use crate::protocol::{Action, Event, Failure};
use crate::report::Line;
use crate::statement::Statement;
use vstd::prelude::*;

verus! {

/// Where the seed writer stands: the action that it issued last.
#[derive(Debug, PartialEq, Eq)]
pub enum SeedPhase {
    /// `Connect` is pending.
    Connecting,
    /// `Execute(SeedInsert)` is pending on the open connection.
    Executing,
    /// The report of what the insert returned is pending; the connection is
    /// still open.
    Reporting,
    /// `Close` is pending.
    Closing,
}

/// What an event does to the seed writer.
#[derive(Debug, PartialEq, Eq)]
pub enum SeedStep {
    /// It goes on: the phase it is in now and the action to perform.
    Pending(SeedPhase, Action),
    /// The row was written, the result reported and the connection closed.
    Done,
    /// The store is unusable: the writer gives up where it stands, without
    /// closing a connection that it may hold.
    Fatal(Failure),
    /// The event does not answer the pending action.
    OutOfTurn,
}

/// The phase and the action with which the seed writer begins.
pub open spec fn make_query_entry() -> (SeedPhase, Action) {
    (SeedPhase::Connecting, Action::Connect)
}

/// The seed writer's transition. A failure to connect or to insert is
/// fatal; a successful insert is followed by the report of what the store
/// returned and then by the close.
pub open spec fn make_query_step(phase: SeedPhase, event: Event) -> SeedStep {
    match (phase, event) {
        (SeedPhase::Connecting, Event::Connected(Ok(_))) => SeedStep::Pending(
            SeedPhase::Executing,
            Action::Execute(Statement::SeedInsert),
        ),
        (SeedPhase::Connecting, Event::Connected(Err(detail))) => SeedStep::Fatal(
            Failure::Connect(detail),
        ),
        (SeedPhase::Executing, Event::Executed(Ok(result))) => SeedStep::Pending(
            SeedPhase::Reporting,
            Action::Report(Line::Written(result)),
        ),
        (SeedPhase::Executing, Event::Executed(Err(detail))) => SeedStep::Fatal(
            Failure::Insert(detail),
        ),
        (SeedPhase::Reporting, Event::Reported) => SeedStep::Pending(
            SeedPhase::Closing,
            Action::Close,
        ),
        (SeedPhase::Closing, Event::Closed) => SeedStep::Done,
        _ => SeedStep::OutOfTurn,
    }
}

/// Starts the seed writer.
pub fn begin_make_query() -> (entry: (SeedPhase, Action))
    ensures
        entry == make_query_entry(),
{
    (SeedPhase::Connecting, Action::Connect)
}

/// Advances the seed writer by one event.
pub fn make_query(phase: SeedPhase, event: Event) -> (step: SeedStep)
    ensures
        step == make_query_step(phase, event),
{
    match phase {
        SeedPhase::Connecting => match event {
            Event::Connected(Ok(_)) => SeedStep::Pending(
                SeedPhase::Executing,
                Action::Execute(Statement::SeedInsert),
            ),
            Event::Connected(Err(detail)) => SeedStep::Fatal(Failure::Connect(detail)),
            _ => SeedStep::OutOfTurn,
        },
        SeedPhase::Executing => match event {
            Event::Executed(Ok(result)) => SeedStep::Pending(
                SeedPhase::Reporting,
                Action::Report(Line::Written(result)),
            ),
            Event::Executed(Err(detail)) => SeedStep::Fatal(Failure::Insert(detail)),
            _ => SeedStep::OutOfTurn,
        },
        SeedPhase::Reporting => match event {
            Event::Reported => SeedStep::Pending(SeedPhase::Closing, Action::Close),
            _ => SeedStep::OutOfTurn,
        },
        SeedPhase::Closing => match event {
            Event::Closed => SeedStep::Done,
            _ => SeedStep::OutOfTurn,
        },
    }
}

} // verus!
