//! Whole runs: what the flow issues when its driver answers with a given
//! sequence of events, and what holds of every such run.
//!
//! Event `i` of a run answers action `i`; the flow's first action, the
//! probe, is action `0`.

use crate::flow::{entry, next, Phase};
use crate::protocol::{Action, Event};
use crate::report::{Line, WriteResult};
use crate::schema::SchemaPhase;
use crate::seed::SeedPhase;
use crate::statement::{Statement, SCHEMA_SQL, SEED_DESCRIPTION, SEED_INSERT_SQL};
use vstd::prelude::*;

verus! {

/// The phase that the flow is in after the first `n` events.
pub open spec fn phase_after(events: Seq<Event>, n: nat) -> Phase
    recommends
        n <= events.len(),
    decreases n,
{
    if n == 0 {
        entry().0
    } else {
        next(phase_after(events, (n - 1) as nat), events[n - 1]).0
    }
}

/// The action that the flow issues after the first `n` events: the one that
/// event `n` answers.
pub open spec fn action_at(events: Seq<Event>, n: nat) -> Action
    recommends
        n <= events.len(),
{
    if n == 0 {
        entry().1
    } else {
        next(phase_after(events, (n - 1) as nat), events[n - 1]).1
    }
}

/// The actions of the whole run, in order: one more than there are events.
pub open spec fn actions(events: Seq<Event>) -> Seq<Action> {
    Seq::new(events.len() + 1, |i: int| action_at(events, i as nat))
}

/// How often `action` is among the actions issued up to and with the one
/// that follows the first `n` events.
pub open spec fn times_issued(events: Seq<Event>, n: nat, action: Action) -> nat
    recommends
        n <= events.len(),
    decreases n,
{
    let here: nat = if action_at(events, n) == action {
        1
    } else {
        0
    };
    if n == 0 {
        here
    } else {
        times_issued(events, (n - 1) as nat, action) + here
    }
}

/// Whether `event` says that the driver performed `action` with success.
pub open spec fn fulfils(event: Event, action: Action) -> bool {
    match (action, event) {
        (Action::ProbeStore, Event::Probed(Ok(_))) => true,
        (Action::CreateStore, Event::Created(Ok(_))) => true,
        (Action::Connect, Event::Connected(Ok(_))) => true,
        (Action::Execute(_), Event::Executed(Ok(_))) => true,
        (Action::Close, Event::Closed) => true,
        (Action::Report(_), Event::Reported) => true,
        _ => false,
    }
}

/// How often, among the first `n` events, `action` was issued and then
/// performed with success.
pub open spec fn times_fulfilled(events: Seq<Event>, n: nat, action: Action) -> nat
    recommends
        n <= events.len(),
    decreases n,
{
    if n == 0 {
        0
    } else {
        let here: nat = if action_at(events, (n - 1) as nat) == action && fulfils(
            events[n - 1],
            action,
        ) {
            1
        } else {
            0
        };
        times_fulfilled(events, (n - 1) as nat, action) + here
    }
}

/// Whether the probe answered that the store exists.
pub open spec fn store_found(events: Seq<Event>) -> bool {
    events.len() > 0 && events[0] == Event::Probed(Ok(true))
}

/// How far a phase is from the start: the number of actions answered on the
/// longest way to it.
pub open spec fn rank(phase: Phase) -> nat {
    match phase {
        Phase::Probing => 0,
        Phase::Creating => 1,
        Phase::Schema(SchemaPhase::Connecting) => 2,
        Phase::Schema(SchemaPhase::Executing) => 3,
        Phase::Schema(SchemaPhase::Closing(_)) => 4,
        Phase::Announcing => 5,
        Phase::Seed(SeedPhase::Connecting) => 6,
        Phase::Seed(SeedPhase::Executing) => 7,
        Phase::Seed(SeedPhase::Reporting) => 8,
        Phase::Seed(SeedPhase::Closing) => 9,
        Phase::Finished => 10,
        Phase::Failed => 10,
    }
}

/// Whether `action` is what the flow waits to have answered in `phase`; at
/// an end, whether it is the action that ended the flow.
pub open spec fn awaits(phase: Phase, action: Action) -> bool {
    match phase {
        Phase::Probing => action == Action::ProbeStore,
        Phase::Creating => action == Action::CreateStore,
        Phase::Schema(SchemaPhase::Connecting) => action == Action::Connect,
        Phase::Schema(SchemaPhase::Executing) => action == Action::Execute(Statement::Schema),
        Phase::Schema(SchemaPhase::Closing(_)) => action == Action::Close,
        Phase::Announcing => action matches Action::Report(line) && !(line is Written),
        Phase::Seed(SeedPhase::Connecting) => action == Action::Connect,
        Phase::Seed(SeedPhase::Executing) => action == Action::Execute(Statement::SeedInsert),
        Phase::Seed(SeedPhase::Reporting) => action matches Action::Report(Line::Written(_)),
        Phase::Seed(SeedPhase::Closing) => action == Action::Close,
        Phase::Finished => action == Action::Finish,
        Phase::Failed => action is Abort,
    }
}

/// What was issued and performed on the way to a phase.
struct Tally {
    /// `CreateStore` issued, and performed.
    creates: nat,
    created: nat,
    /// `Execute(Schema)` issued, and performed.
    schemas: nat,
    applied: nat,
    /// `Execute(SeedInsert)` issued, and performed.
    inserts: nat,
    inserted: nat,
    /// `Connect` performed.
    opened: nat,
    /// `Close` issued.
    closes: nat,
}

spec fn tally(events: Seq<Event>, n: nat) -> Tally {
    Tally {
        creates: times_issued(events, n, Action::CreateStore),
        created: times_fulfilled(events, n, Action::CreateStore),
        schemas: times_issued(events, n, Action::Execute(Statement::Schema)),
        applied: times_fulfilled(events, n, Action::Execute(Statement::Schema)),
        inserts: times_issued(events, n, Action::Execute(Statement::SeedInsert)),
        inserted: times_fulfilled(events, n, Action::Execute(Statement::SeedInsert)),
        opened: times_fulfilled(events, n, Action::Connect),
        closes: times_issued(events, n, Action::Close),
    }
}

/// What the phase reached after `n` events says of the way to it.
spec fn accounted(events: Seq<Event>, n: nat) -> bool {
    let phase = phase_after(events, n);
    let action = action_at(events, n);
    let t = tally(events, n);
    let found = store_found(events);
    // A store that was not found was created before anything else was done.
    let made = !found ==> t.created == 1;
    &&& awaits(phase, action)
    &&& t.created <= t.creates <= 1
    &&& t.applied <= t.schemas <= t.created
    &&& t.inserted <= t.inserts <= 1
    &&& t.closes <= t.opened <= t.closes + 1
    &&& found ==> t.creates == 0
    &&& match phase {
        Phase::Probing => n == 0 && t.creates == 0 && t.inserts == 0 && t.opened == 0 && t.closes
            == 0,
        Phase::Creating => !found && t.creates == 1 && t.created == 0 && t.inserts == 0
            && t.opened == 0 && t.closes == 0,
        Phase::Schema(SchemaPhase::Connecting) => t.created == 1 && t.schemas == 0 && t.inserts
            == 0 && t.opened == 0 && t.closes == 0,
        Phase::Schema(SchemaPhase::Executing) => t.schemas == 1 && t.applied == 0 && t.inserts
            == 0 && t.opened == 1 && t.closes == 0,
        Phase::Schema(SchemaPhase::Closing(outcome)) => t.schemas == 1 && (t.applied == 1
            <==> outcome is Ok) && t.inserts == 0 && t.opened == 1 && t.closes == 1,
        Phase::Announcing => made && t.inserts == 0 && t.opened == t.closes && t.closes
            == t.schemas && match action {
            Action::Report(Line::Created) => t.applied == 1,
            Action::Report(Line::SchemaFailed(_)) => t.created == 1 && t.applied == 0,
            _ => found,
        },
        Phase::Seed(SeedPhase::Connecting) => made && t.inserts == 0 && t.opened == t.closes
            && t.closes == t.schemas,
        Phase::Seed(SeedPhase::Executing) => made && t.inserts == 1 && t.inserted == 0 && t.opened
            == t.closes + 1 && t.closes == t.schemas,
        Phase::Seed(SeedPhase::Reporting) => made && t.inserted == 1 && t.opened == t.closes + 1
            && t.closes == t.schemas && n >= 1 && action_at(events, (n - 1) as nat)
            == Action::Execute(Statement::SeedInsert) && (action matches Action::Report(
            Line::Written(result),
        ) && events[n - 1] == Event::Executed(Ok(result))),
        Phase::Seed(SeedPhase::Closing) | Phase::Finished => made && t.inserted == 1 && t.opened
            == t.closes && t.closes == t.schemas + 1,
        Phase::Failed => true,
    }
}

proof fn lemma_accounted(events: Seq<Event>, n: nat)
    requires
        n <= events.len(),
    ensures
        accounted(events, n),
    decreases n,
{
    if n > 0 {
        lemma_accounted(events, (n - 1) as nat);
    }
}

/// In every phase the action that was issued last is the one that the phase
/// waits for.
pub proof fn pending_action_fits_phase(events: Seq<Event>, n: nat)
    requires
        n <= events.len(),
    ensures
        awaits(phase_after(events, n), action_at(events, n)),
{
    lemma_accounted(events, n);
}

/// Whatever the driver answers, no run creates the store twice, applies the
/// schema twice or inserts a second seed row; and the schema is applied only
/// to a store that this run created.
pub proof fn steps_issued_at_most_once(events: Seq<Event>, n: nat)
    requires
        n <= events.len(),
    ensures
        times_issued(events, n, Action::CreateStore) <= 1,
        times_issued(events, n, Action::Execute(Statement::Schema)) <= times_fulfilled(
            events,
            n,
            Action::CreateStore,
        ),
        times_issued(events, n, Action::Execute(Statement::SeedInsert)) <= 1,
{
    lemma_accounted(events, n);
}

/// A store that the probe found is left as it is: the run neither creates it
/// nor applies the schema, however the run goes on.
pub proof fn found_store_is_left_alone(events: Seq<Event>, n: nat)
    requires
        n <= events.len(),
        store_found(events),
    ensures
        times_issued(events, n, Action::CreateStore) == 0,
        times_issued(events, n, Action::Execute(Statement::Schema)) == 0,
{
    lemma_accounted(events, n);
}

/// A run that finished has issued the seed insert exactly once, and the store
/// has performed it, whether the store was found or created, and whether or
/// not the schema could be applied. The run created the store exactly when
/// the probe did not find it.
pub proof fn finished_run_wrote_one_row(events: Seq<Event>, n: nat)
    requires
        n <= events.len(),
        phase_after(events, n) == Phase::Finished,
    ensures
        times_issued(events, n, Action::Execute(Statement::SeedInsert)) == 1,
        times_fulfilled(events, n, Action::Execute(Statement::SeedInsert)) == 1,
        times_fulfilled(events, n, Action::CreateStore) == (if store_found(events) {
            0nat
        } else {
            1nat
        }),
{
    lemma_accounted(events, n);
}

/// The lines say what happened. Creation is announced only after the store
/// was created and the schema applied to it; a schema failure only when the
/// store was created and the schema not applied; a find only when the probe
/// found the store. The result that is reported is the one that the store
/// has just returned for the seed insert.
pub proof fn reports_are_truthful(events: Seq<Event>, n: nat)
    requires
        n <= events.len(),
    ensures
        action_at(events, n) == Action::Report(Line::Created) ==> times_fulfilled(
            events,
            n,
            Action::CreateStore,
        ) == 1 && times_fulfilled(events, n, Action::Execute(Statement::Schema)) == 1,
        action_at(events, n) matches Action::Report(Line::SchemaFailed(_)) ==> times_fulfilled(
            events,
            n,
            Action::CreateStore,
        ) == 1 && times_fulfilled(events, n, Action::Execute(Statement::Schema)) == 0,
        action_at(events, n) == Action::Report(Line::AlreadyExists) ==> store_found(events),
        action_at(events, n) matches Action::Report(Line::Written(result)) ==> n >= 1
            && action_at(events, (n - 1) as nat) == Action::Execute(Statement::SeedInsert)
            && events[n - 1] == Event::Executed(Ok(result)),
{
    lemma_accounted(events, n);
}

/// Whatever a run executes is one of the two fixed statements: the schema
/// batch, with nothing bound, or the seed insert, with the one fixed
/// description bound. No run updates or deletes a row.
pub proof fn executed_statements_are_fixed(events: Seq<Event>, n: nat)
    requires
        n <= events.len(),
    ensures
        action_at(events, n) matches Action::Execute(statement) ==> {
            ||| (statement.sql_text() == SCHEMA_SQL@ && statement.bound_values()
                == Seq::<Seq<char>>::empty())
            ||| (statement.sql_text() == SEED_INSERT_SQL@ && statement.bound_values()
                == seq![SEED_DESCRIPTION@])
        },
{
}

/// A connection is asked for only while none is open, a statement is
/// executed only on the one open connection, and what is closed is that
/// connection.
pub proof fn connection_is_open_when_used(events: Seq<Event>, n: nat)
    requires
        n <= events.len(),
    ensures
        action_at(events, n) == Action::Connect ==> times_fulfilled(events, n, Action::Connect)
            == times_issued(events, n, Action::Close),
        action_at(events, n) is Execute ==> times_fulfilled(events, n, Action::Connect)
            == times_issued(events, n, Action::Close) + 1,
        action_at(events, n) == Action::Close ==> times_fulfilled(events, n, Action::Connect)
            == times_issued(events, n, Action::Close),
{
    lemma_accounted(events, n);
}

/// Connections are opened and closed in pairs: at no time is more than one
/// open, and none is open while the flow announces what became of the
/// store, nor when it has finished. The schema initializer's connection is
/// closed before the seed writer asks for its own.
pub proof fn connections_are_paired(events: Seq<Event>, n: nat)
    requires
        n <= events.len(),
    ensures
        times_issued(events, n, Action::Close) <= times_fulfilled(events, n, Action::Connect)
            <= times_issued(events, n, Action::Close) + 1,
        phase_after(events, n) == Phase::Announcing || phase_after(events, n)
            == Phase::Finished ==> times_fulfilled(events, n, Action::Connect) == times_issued(
            events,
            n,
            Action::Close,
        ),
{
    lemma_accounted(events, n);
}

/// Every answered action takes the flow further: after `n` events it is at
/// least `n` steps from the start, or at an end.
pub proof fn flow_advances(events: Seq<Event>, n: nat)
    requires
        n <= events.len(),
    ensures
        rank(phase_after(events, n)) >= n || rank(phase_after(events, n)) == 10,
    decreases n,
{
    if n > 0 {
        flow_advances(events, (n - 1) as nat);
    }
}

/// No run is longer than ten events: after the tenth the flow has finished
/// or was aborted, and an event after that finds it aborted.
pub proof fn run_ends_within_ten_events(events: Seq<Event>, n: nat)
    requires
        10 <= n <= events.len(),
    ensures
        phase_after(events, n) == Phase::Finished || phase_after(events, n) == Phase::Failed,
        n > 10 ==> phase_after(events, n) == Phase::Failed,
{
    flow_advances(events, n);
    if n > 10 {
        flow_advances(events, (n - 1) as nat);
    }
}

/// A failure of the schema initializer does not end the flow. Once it is
/// connected, the connection is closed whatever the schema batch returned;
/// a failure to connect or to apply the schema is announced, and the seed
/// writer starts after the announcement.
pub proof fn schema_failure_is_announced(outcome: Result<WriteResult, String>, detail: String)
    ensures
        next(Phase::Schema(SchemaPhase::Executing), Event::Executed(outcome)) == (
            Phase::Schema(SchemaPhase::Closing(outcome)),
            Action::Close,
        ),
        next(Phase::Schema(SchemaPhase::Connecting), Event::Connected(Err(detail))) == (
            Phase::Announcing,
            Action::Report(Line::SchemaFailed(detail)),
        ),
        next(Phase::Schema(SchemaPhase::Closing(Err(detail))), Event::Closed) == (
            Phase::Announcing,
            Action::Report(Line::SchemaFailed(detail)),
        ),
        next(Phase::Announcing, Event::Reported) == (
            Phase::Seed(SeedPhase::Connecting),
            Action::Connect,
        ),
{
}

/// The run on an absent store, when every step succeeds: the store is
/// created, the schema applied once on a connection of its own, the success
/// announced, and one seed row inserted on a second connection, which is
/// closed when the result has been reported. A probe that fails counts as
/// absence.
pub proof fn run_on_absent_store(
    probe: Result<bool, String>,
    schema: WriteResult,
    written: WriteResult,
)
    requires
        probe != Ok::<bool, String>(true),
    ensures
        ({
            let events = seq![
                Event::Probed(probe),
                Event::Created(Ok(())),
                Event::Connected(Ok(())),
                Event::Executed(Ok(schema)),
                Event::Closed,
                Event::Reported,
                Event::Connected(Ok(())),
                Event::Executed(Ok(written)),
                Event::Reported,
                Event::Closed,
            ];
            &&& actions(events) == seq![
                Action::ProbeStore,
                Action::CreateStore,
                Action::Connect,
                Action::Execute(Statement::Schema),
                Action::Close,
                Action::Report(Line::Created),
                Action::Connect,
                Action::Execute(Statement::SeedInsert),
                Action::Report(Line::Written(written)),
                Action::Close,
                Action::Finish,
            ]
            &&& phase_after(events, 10) == Phase::Finished
        }),
{
    reveal_with_fuel(phase_after, 11);
}

/// The run on a store that the probe found, when every step succeeds: the
/// find is announced and one more seed row inserted; nothing is created.
pub proof fn run_on_found_store(written: WriteResult)
    ensures
        ({
            let events = seq![
                Event::Probed(Ok(true)),
                Event::Reported,
                Event::Connected(Ok(())),
                Event::Executed(Ok(written)),
                Event::Reported,
                Event::Closed,
            ];
            &&& actions(events) == seq![
                Action::ProbeStore,
                Action::Report(Line::AlreadyExists),
                Action::Connect,
                Action::Execute(Statement::SeedInsert),
                Action::Report(Line::Written(written)),
                Action::Close,
                Action::Finish,
            ]
            &&& phase_after(events, 6) == Phase::Finished
        }),
{
    reveal_with_fuel(phase_after, 7);
}

} // verus!
