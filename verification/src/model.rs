//! An abstract model of the target database, as the bootstrap protocol
//! observes it, and the proofs that the protocol keeps its promises against
//! that model: atomicity (a failed run leaves the committed state exactly as
//! it was), the success postcondition (a committed run leaves both the
//! namespace and the table present), idempotence (against an initialized
//! database an undisturbed run reports "already initialized" and changes
//! nothing), and termination (every run is over within a fixed number of
//! round trips).
//!
//! The model carries exactly what the protocol reads and writes: whether the
//! tracking namespace exists and whether the change-record table exists, once
//! as committed state and once as the open transaction's view of it. The
//! transaction engine's contract — statements act on the transaction's view,
//! commit publishes it, rollback discards it — is the `db_after` relation;
//! which answers the database may give to each action is `event_allowed`.
//! Failures (lost connection, permission denied, a concurrent winner having
//! created the objects first) may be injected at every round trip.

use vstd::prelude::*;

use crate::bootstrap::{Action, Event, Outcome, Phase, action_spec, event_expected, step_spec};

verus! {

/// What one consistent view of the database holds of the two objects the
/// protocol cares about.
pub struct Snapshot {
    /// The tracking namespace exists in this view.
    pub namespace_exists: bool,
    /// The change-record table exists in this view.
    pub table_exists: bool,
}

/// The table lives inside the namespace, so it cannot exist without it.
pub open spec fn snapshot_wf(s: Snapshot) -> bool {
    s.table_exists ==> s.namespace_exists
}

/// The database as the protocol observes it: the committed state, which is
/// what every other connection sees, and the open transaction's view of it,
/// if a transaction is open on this connection.
pub struct Db {
    /// The durable state, visible outside the transaction.
    pub committed: Snapshot,
    /// The open transaction's working view; `None` when no transaction is open.
    pub txn: Option<Snapshot>,
}

/// Which events the database may answer when the driver performs the action
/// that phase `p` calls for against database `db`. Every action may fail —
/// that is the injected-failure model — but a success reports the truth: the
/// existence query answers what the transaction's view holds, and a creation
/// statement succeeds only where its object is absent from that view.
pub open spec fn event_allowed(db: Db, p: Phase, e: Event) -> bool {
    event_expected(p, e) && match action_spec(p) {
        Action::Begin => true,
        Action::CheckNamespace => {
            &&& db.txn is Some
            &&& (e matches Event::ExistsAnswer(b) ==> b == db.txn->0.namespace_exists)
        },
        Action::CreateNamespace => {
            &&& db.txn is Some
            &&& (e == Event::StmtOk ==> !db.txn->0.namespace_exists)
        },
        Action::CreateTable => {
            &&& db.txn is Some
            &&& (e == Event::StmtOk ==> !db.txn->0.table_exists)
        },
        Action::Commit => db.txn is Some,
        Action::Rollback => db.txn is Some,
        Action::Stop => false,
    }
}

/// How the database changes when the action phase `p` calls for is answered
/// by event `e`: begin snapshots the committed state, creation statements
/// change only the transaction's view, commit publishes that view, rollback
/// and a failed commit discard it, and a failed statement changes nothing.
pub open spec fn db_after(db: Db, p: Phase, e: Event) -> Db {
    match (action_spec(p), e) {
        (Action::Begin, Event::BeginOk) => Db { committed: db.committed, txn: Some(db.committed) },
        (Action::CreateNamespace, Event::StmtOk) => Db {
            committed: db.committed,
            txn: Some(Snapshot { namespace_exists: true, table_exists: db.txn->0.table_exists }),
        },
        (Action::CreateTable, Event::StmtOk) => Db {
            committed: db.committed,
            txn: Some(Snapshot { namespace_exists: db.txn->0.namespace_exists, table_exists: true }),
        },
        (Action::Commit, Event::CommitOk) => Db { committed: db.txn->0, txn: None },
        (Action::Commit, Event::CommitFailed) => Db { committed: db.committed, txn: None },
        (Action::Rollback, _) => Db { committed: db.committed, txn: None },
        _ => db,
    }
}

/// The phase the protocol is in after consuming `events`, starting idle.
pub open spec fn run_phase(events: Seq<Event>) -> Phase
    decreases events.len(),
{
    if events.len() == 0 {
        Phase::Idle
    } else {
        step_spec(run_phase(events.drop_last()), events.last())
    }
}

/// The database after consuming `events`, starting from `db0`.
pub open spec fn run_db(db0: Db, events: Seq<Event>) -> Db
    decreases events.len(),
{
    if events.len() == 0 {
        db0
    } else {
        db_after(run_db(db0, events.drop_last()), run_phase(events.drop_last()), events.last())
    }
}

/// Whether `events` is a run the database model can produce from `db0`:
/// each event answers the action of the phase it arrives in.
pub open spec fn run_allowed(db0: Db, events: Seq<Event>) -> bool
    decreases events.len(),
{
    events.len() == 0 || {
        &&& run_allowed(db0, events.drop_last())
        &&& event_allowed(
            run_db(db0, events.drop_last()),
            run_phase(events.drop_last()),
            events.last(),
        )
    }
}

/// A well-formed starting point: no transaction open, table only inside the
/// namespace.
pub open spec fn start_ok(db0: Db) -> bool {
    db0.txn is None && snapshot_wf(db0.committed)
}

/// What holds of the database in every phase of every allowed run: the
/// committed state is untouched until the one commit that ends in
/// `Done(Initialized)`, the transaction's view tracks the protocol's
/// progress, and a rollback is only ever pending with a non-`Initialized`
/// outcome to report.
pub open spec fn protocol_inv(db0: Db, db: Db, p: Phase) -> bool {
    match p {
        Phase::Idle => db == db0,
        Phase::Checking => db.committed == db0.committed && db.txn == Some(db0.committed),
        Phase::CreatingNamespace => {
            &&& db.committed == db0.committed
            &&& db.txn == Some(db0.committed)
            &&& !db0.committed.namespace_exists
        },
        Phase::CreatingTable => {
            &&& db.committed == db0.committed
            &&& db.txn == Some(
                Snapshot { namespace_exists: true, table_exists: db0.committed.table_exists },
            )
            &&& !db0.committed.namespace_exists
        },
        Phase::Committing => {
            &&& db.committed == db0.committed
            &&& db.txn == Some(Snapshot { namespace_exists: true, table_exists: true })
            &&& !db0.committed.namespace_exists
        },
        Phase::RollingBack(o) => {
            &&& db.committed == db0.committed
            &&& db.txn is Some
            &&& o != Outcome::Initialized
        },
        Phase::Done(o) => {
            &&& db.txn is None
            &&& (o == Outcome::Initialized ==> db.committed == Snapshot {
                namespace_exists: true,
                table_exists: true,
            } && !db0.committed.namespace_exists)
            &&& (o != Outcome::Initialized ==> db.committed == db0.committed)
        },
    }
}

/// The protocol invariant holds along every allowed run.
pub proof fn lemma_protocol_inv(db0: Db, events: Seq<Event>)
    requires
        start_ok(db0),
        run_allowed(db0, events),
    ensures
        protocol_inv(db0, run_db(db0, events), run_phase(events)),
    decreases events.len(),
{
    if events.len() > 0 {
        lemma_protocol_inv(db0, events.drop_last());
    }
}

/// **Atomicity.** However a run fails — a failure injected at any round trip,
/// including between the two creation statements — once it is over with any
/// outcome but `Initialized`, the committed database is exactly what it was
/// before the run: neither the namespace nor the table was added, and no
/// transaction is left open.
pub proof fn lemma_atomicity(db0: Db, events: Seq<Event>, o: Outcome)
    requires
        start_ok(db0),
        run_allowed(db0, events),
        run_phase(events) == Phase::Done(o),
        o != Outcome::Initialized,
    ensures
        run_db(db0, events).committed == db0.committed,
        run_db(db0, events).txn is None,
{
    lemma_protocol_inv(db0, events);
}

/// **Success postcondition.** Once a run is over with `Initialized`, the
/// committed database holds both the namespace and the table, no transaction
/// is left open — and the namespace was absent before the run, so nothing was
/// ever created twice.
pub proof fn lemma_success_postcondition(db0: Db, events: Seq<Event>)
    requires
        start_ok(db0),
        run_allowed(db0, events),
        run_phase(events) == Phase::Done(Outcome::Initialized),
    ensures
        run_db(db0, events).committed.namespace_exists,
        run_db(db0, events).committed.table_exists,
        run_db(db0, events).txn is None,
        !db0.committed.namespace_exists,
{
    lemma_protocol_inv(db0, events);
}

/// An event that reports no injected failure: the round trip succeeded. The
/// existence query may answer either way and still counts as undisturbed.
pub open spec fn undisturbed(e: Event) -> bool {
    match e {
        Event::BeginOk => true,
        Event::ExistsAnswer(_) => true,
        Event::StmtOk => true,
        Event::CommitOk => true,
        Event::RollbackOk => true,
        _ => false,
    }
}

/// Every event of the run reports success.
pub open spec fn run_undisturbed(events: Seq<Event>) -> bool {
    forall|i: int| 0 <= i < events.len() ==> undisturbed(#[trigger] events[i])
}

/// The phases an undisturbed run against an already-initialized database can
/// reach: it checks, finds the namespace, and bows out reporting
/// `AlreadyInitialized`.
pub open spec fn already_phase(p: Phase) -> bool {
    ||| p == Phase::Idle
    ||| p == Phase::Checking
    ||| p == Phase::RollingBack(Outcome::AlreadyInitialized)
    ||| p == Phase::Done(Outcome::AlreadyInitialized)
}

/// Along an undisturbed allowed run from an initialized database, the
/// protocol never leaves the `already_phase` corridor.
pub proof fn lemma_already_corridor(db0: Db, events: Seq<Event>)
    requires
        start_ok(db0),
        db0.committed.namespace_exists,
        run_allowed(db0, events),
        run_undisturbed(events),
    ensures
        already_phase(run_phase(events)),
    decreases events.len(),
{
    if events.len() > 0 {
        lemma_already_corridor(db0, events.drop_last());
        lemma_protocol_inv(db0, events.drop_last());
    }
}

/// **Idempotence.** Running setup against a database whose tracking
/// namespace already exists, with no failure injected, ends — whenever it
/// ends — in `AlreadyInitialized`, and the database is exactly as before: no
/// duplicate namespace, no duplicate table, no partial objects.
pub proof fn lemma_idempotence(db0: Db, events: Seq<Event>, o: Outcome)
    requires
        start_ok(db0),
        db0.committed.namespace_exists,
        run_allowed(db0, events),
        run_undisturbed(events),
        run_phase(events) == Phase::Done(o),
    ensures
        o == Outcome::AlreadyInitialized,
        run_db(db0, events).committed == db0.committed,
        run_db(db0, events).txn is None,
{
    lemma_already_corridor(db0, events);
    lemma_protocol_inv(db0, events);
}

/// The phases an undisturbed run against a fresh database can reach: straight
/// through creation to the commit.
pub open spec fn fresh_phase(p: Phase) -> bool {
    ||| p == Phase::Idle
    ||| p == Phase::Checking
    ||| p == Phase::CreatingNamespace
    ||| p == Phase::CreatingTable
    ||| p == Phase::Committing
    ||| p == Phase::Done(Outcome::Initialized)
}

/// Along an undisturbed allowed run from a fresh database, the protocol never
/// leaves the `fresh_phase` corridor.
pub proof fn lemma_fresh_corridor(db0: Db, events: Seq<Event>)
    requires
        start_ok(db0),
        !db0.committed.namespace_exists,
        run_allowed(db0, events),
        run_undisturbed(events),
    ensures
        fresh_phase(run_phase(events)),
    decreases events.len(),
{
    if events.len() > 0 {
        lemma_fresh_corridor(db0, events.drop_last());
        lemma_protocol_inv(db0, events.drop_last());
    }
}

/// **Fresh-database scenario.** Running setup against a database without the
/// tracking namespace, with no failure injected, ends — whenever it ends — in
/// `Initialized`, with both objects committed.
pub proof fn lemma_fresh_run(db0: Db, events: Seq<Event>, o: Outcome)
    requires
        start_ok(db0),
        !db0.committed.namespace_exists,
        run_allowed(db0, events),
        run_undisturbed(events),
        run_phase(events) == Phase::Done(o),
    ensures
        o == Outcome::Initialized,
        run_db(db0, events).committed.namespace_exists,
        run_db(db0, events).committed.table_exists,
        run_db(db0, events).txn is None,
{
    lemma_fresh_corridor(db0, events);
    lemma_protocol_inv(db0, events);
}

/// How far through the protocol a phase is; every step strictly increases it.
pub open spec fn phase_rank(p: Phase) -> int {
    match p {
        Phase::Idle => 0,
        Phase::Checking => 1,
        Phase::CreatingNamespace => 2,
        Phase::CreatingTable => 3,
        Phase::Committing => 4,
        Phase::RollingBack(_) => 5,
        Phase::Done(_) => 6,
    }
}

/// **Termination.** Every allowed run is over within six round trips: the
/// protocol never revisits a phase, so the driver's loop cannot run forever.
pub proof fn lemma_run_bounded(db0: Db, events: Seq<Event>)
    requires
        run_allowed(db0, events),
    ensures
        events.len() <= phase_rank(run_phase(events)) <= 6,
    decreases events.len(),
{
    if events.len() > 0 {
        lemma_run_bounded(db0, events.drop_last());
    }
}

} // verus!
