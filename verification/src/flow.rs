//! The whole flow: probe the store, create and schematize it when it is
//! absent, announce which of the two happened, then write the seed row.
//!
//! The flow takes no lock on the store. Two runs against the same fresh
//! location may both find it absent, and one of them may then meet a store
//! that the other has created but not yet schematized.

use crate::protocol::{Action, Event, Failure};
use crate::report::Line;
use crate::schema::{
    begin_create_schema, create_schema, create_schema_entry, create_schema_step, SchemaPhase,
    SchemaStep,
};
use crate::seed::{
    begin_make_query, make_query, make_query_entry, make_query_step, SeedPhase, SeedStep,
};
use vstd::prelude::*;

verus! {

/// The location of the store when the caller configures none. The flow
/// itself names no location: its driver applies every action to the one that
/// it was started for.
pub const DEFAULT_LOCATION: &'static str = "sqlite://sqlite.db";

/// Where the flow stands.
#[derive(Debug, PartialEq, Eq)]
pub enum Phase {
    /// `ProbeStore` is pending.
    Probing,
    /// `CreateStore` is pending.
    Creating,
    /// The schema initializer is at work.
    Schema(SchemaPhase),
    /// The line that says what became of the store is pending.
    Announcing,
    /// The seed writer is at work.
    Seed(SeedPhase),
    /// The flow has finished.
    Finished,
    /// The flow was aborted.
    Failed,
}

/// The phase and the action with which a run begins.
pub open spec fn entry() -> (Phase, Action) {
    (Phase::Probing, Action::ProbeStore)
}

/// The flow's transition: the phase that follows and the action to perform.
///
/// Only a probe that answers that the store exists counts as found; a probe
/// that fails is taken as absence. An absent store is created and then
/// schematized; a store that was found gets neither. A schema that could not
/// be applied is announced and the flow goes on: the seed writer runs in
/// every case but after a failure to create the store. An event that does
/// not answer the pending action aborts the flow.
pub open spec fn next(phase: Phase, event: Event) -> (Phase, Action) {
    match (phase, event) {
        (Phase::Probing, Event::Probed(Ok(true))) => (
            Phase::Announcing,
            Action::Report(Line::AlreadyExists),
        ),
        (Phase::Probing, Event::Probed(_)) => (Phase::Creating, Action::CreateStore),
        (Phase::Creating, Event::Created(Ok(_))) => (
            Phase::Schema(create_schema_entry().0),
            create_schema_entry().1,
        ),
        (Phase::Creating, Event::Created(Err(detail))) => (
            Phase::Failed,
            Action::Abort(Failure::CreateStore(detail)),
        ),
        (Phase::Schema(inner), event) => match create_schema_step(inner, event) {
            SchemaStep::Pending(inner, action) => (Phase::Schema(inner), action),
            SchemaStep::Settled(Ok(_)) => (Phase::Announcing, Action::Report(Line::Created)),
            SchemaStep::Settled(Err(detail)) => (
                Phase::Announcing,
                Action::Report(Line::SchemaFailed(detail)),
            ),
            SchemaStep::OutOfTurn => (Phase::Failed, Action::Abort(Failure::OutOfTurn)),
        },
        (Phase::Announcing, Event::Reported) => (
            Phase::Seed(make_query_entry().0),
            make_query_entry().1,
        ),
        (Phase::Seed(inner), event) => match make_query_step(inner, event) {
            SeedStep::Pending(inner, action) => (Phase::Seed(inner), action),
            SeedStep::Done => (Phase::Finished, Action::Finish),
            SeedStep::Fatal(failure) => (Phase::Failed, Action::Abort(failure)),
            SeedStep::OutOfTurn => (Phase::Failed, Action::Abort(Failure::OutOfTurn)),
        },
        _ => (Phase::Failed, Action::Abort(Failure::OutOfTurn)),
    }
}

/// Starts a run.
pub fn begin() -> (start: (Phase, Action))
    ensures
        start == entry(),
{
    (Phase::Probing, Action::ProbeStore)
}

/// Advances the flow by one event: the driver has performed the pending
/// action and hands over what came of it.
pub fn database_creation(phase: Phase, event: Event) -> (step: (Phase, Action))
    ensures
        step == next(phase, event),
{
    match phase {
        Phase::Probing => match event {
            Event::Probed(Ok(true)) => (Phase::Announcing, Action::Report(Line::AlreadyExists)),
            Event::Probed(_) => (Phase::Creating, Action::CreateStore),
            _ => (Phase::Failed, Action::Abort(Failure::OutOfTurn)),
        },
        Phase::Creating => match event {
            Event::Created(Ok(_)) => {
                let (inner, action) = begin_create_schema();
                (Phase::Schema(inner), action)
            },
            Event::Created(Err(detail)) => (
                Phase::Failed,
                Action::Abort(Failure::CreateStore(detail)),
            ),
            _ => (Phase::Failed, Action::Abort(Failure::OutOfTurn)),
        },
        Phase::Schema(inner) => match create_schema(inner, event) {
            SchemaStep::Pending(inner, action) => (Phase::Schema(inner), action),
            SchemaStep::Settled(Ok(_)) => (Phase::Announcing, Action::Report(Line::Created)),
            SchemaStep::Settled(Err(detail)) => (
                Phase::Announcing,
                Action::Report(Line::SchemaFailed(detail)),
            ),
            SchemaStep::OutOfTurn => (Phase::Failed, Action::Abort(Failure::OutOfTurn)),
        },
        Phase::Announcing => match event {
            Event::Reported => {
                let (inner, action) = begin_make_query();
                (Phase::Seed(inner), action)
            },
            _ => (Phase::Failed, Action::Abort(Failure::OutOfTurn)),
        },
        Phase::Seed(inner) => match make_query(inner, event) {
            SeedStep::Pending(inner, action) => (Phase::Seed(inner), action),
            SeedStep::Done => (Phase::Finished, Action::Finish),
            SeedStep::Fatal(failure) => (Phase::Failed, Action::Abort(failure)),
            SeedStep::OutOfTurn => (Phase::Failed, Action::Abort(Failure::OutOfTurn)),
        },
        Phase::Finished => (Phase::Failed, Action::Abort(Failure::OutOfTurn)),
        Phase::Failed => (Phase::Failed, Action::Abort(Failure::OutOfTurn)),
    }
}

} // verus!
