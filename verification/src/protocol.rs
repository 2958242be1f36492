//! What passes between the flow and its driver: the flow issues an action,
//! the driver performs it on the store and answers with an event.

use crate::report::{Line, WriteResult};
use crate::statement::Statement;
use vstd::prelude::*;

verus! {

/// Why a flow ended without finishing.
#[derive(Debug, PartialEq, Eq)]
pub enum Failure {
    /// The store could not be created; the failure's text.
    CreateStore(String),
    /// The seed writer could not connect to the store; the failure's text.
    Connect(String),
    /// The seed insert failed; the failure's text.
    Insert(String),
    /// An event arrived that does not answer the action that was pending.
    OutOfTurn,
}

/// What the flow asks its driver to do next.
#[derive(Debug, PartialEq, Eq)]
pub enum Action {
    /// Find out whether the store exists at the location.
    ProbeStore,
    /// Create the store at the location.
    CreateStore,
    /// Open a connection to the store.
    Connect,
    /// Execute the statement, with its bound values, on the open connection.
    Execute(Statement),
    /// Close the open connection.
    Close,
    /// Print the line.
    Report(Line),
    /// Nothing more: the flow has finished.
    Finish,
    /// End the process: the store is unusable, or the driver left the
    /// protocol.
    Abort(Failure),
}

/// What the driver answers after it performed an action. A failure is handed
/// over as its text.
#[derive(Debug, PartialEq, Eq)]
pub enum Event {
    /// The probe returned: whether the store exists, or why that could not be
    /// determined.
    Probed(Result<bool, String>),
    /// The store was created, or could not be.
    Created(Result<(), String>),
    /// The connection was opened, or could not be.
    Connected(Result<(), String>),
    /// The statement was executed, or failed.
    Executed(Result<WriteResult, String>),
    /// The connection was closed.
    Closed,
    /// The line was printed.
    Reported,
}

} // verus!
