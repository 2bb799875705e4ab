//! The bootstrap protocol: one invocation walks the phases
//! `Idle -> ... -> Done`, opening a single transaction, creating the tracking
//! namespace and the change-record table inside it, and committing — or
//! rolling the whole transaction back so that nothing persists.

use vstd::prelude::*;

verus! {

/// What a failed SQL statement reported: the one distinction the protocol
/// needs is "the object already exists" against everything else.
#[derive(Clone, Copy, Debug, PartialEq, Eq, Structural)]
pub enum StmtFailure {
    AlreadyExists,
    Other,
}

/// The result of performing one database action, as the driver observed it.
#[derive(Clone, Copy, Debug, PartialEq, Eq, Structural)]
pub enum Event {
    /// The transaction opened.
    BeginOk,
    /// The transaction could not be opened (connection-level failure).
    BeginFailed,
    /// The namespace-existence query answered; the payload is the answer.
    ExistsAnswer(bool),
    /// The namespace-existence query failed.
    ExistsFailed,
    /// A creation statement succeeded.
    StmtOk,
    /// A creation statement failed.
    StmtFailed(StmtFailure),
    /// The commit round trip succeeded.
    CommitOk,
    /// The commit round trip failed.
    CommitFailed,
    /// The rollback round trip succeeded.
    RollbackOk,
    /// The rollback round trip failed.
    RollbackFailed,
}

/// What one invocation of the bootstrap ends in.
#[derive(Clone, Copy, Debug, PartialEq, Eq, Structural)]
pub enum Outcome {
    /// The namespace and the table were created and committed.
    Initialized,
    /// The tracking infrastructure was already present; nothing was changed.
    AlreadyInitialized,
    /// A connection-level round trip (begin, commit, rollback) failed.
    ConnectionFailed,
    /// An unexpected statement error; the transaction was rolled back.
    SetupFailed,
}

/// Where the protocol stands between two actions.
#[derive(Clone, Copy, Debug, PartialEq, Eq, Structural)]
pub enum Phase {
    /// Nothing issued yet; the next action opens the transaction.
    Idle,
    /// Transaction open; the next action asks whether the namespace exists.
    Checking,
    /// Namespace known absent; the next action creates it.
    CreatingNamespace,
    /// Namespace created in this transaction; the next action creates the table.
    CreatingTable,
    /// Both objects created in this transaction; the next action commits.
    Committing,
    /// The next action rolls back; the payload is the outcome to report after.
    RollingBack(Outcome),
    /// Terminal: nothing more to do.
    Done(Outcome),
}

/// The next database action the driver must perform.
#[derive(Clone, Copy, Debug, PartialEq, Eq, Structural)]
pub enum Action {
    /// Open a transaction on the connection.
    Begin,
    /// Query whether the tracking namespace exists, inside the transaction.
    CheckNamespace,
    /// Issue the namespace-creation statement.
    CreateNamespace,
    /// Issue the table-creation statement.
    CreateTable,
    /// Commit the transaction.
    Commit,
    /// Roll the transaction back.
    Rollback,
    /// The invocation is over.
    Stop,
}

/// The action each phase calls for.
pub open spec fn action_spec(p: Phase) -> Action {
    match p {
        Phase::Idle => Action::Begin,
        Phase::Checking => Action::CheckNamespace,
        Phase::CreatingNamespace => Action::CreateNamespace,
        Phase::CreatingTable => Action::CreateTable,
        Phase::Committing => Action::Commit,
        Phase::RollingBack(_) => Action::Rollback,
        Phase::Done(_) => Action::Stop,
    }
}

/// Whether `e` is a possible answer to the action phase `p` calls for.
pub open spec fn event_expected(p: Phase, e: Event) -> bool {
    match p {
        Phase::Idle => e == Event::BeginOk || e == Event::BeginFailed,
        Phase::Checking => (e matches Event::ExistsAnswer(_)) || e == Event::ExistsFailed,
        Phase::CreatingNamespace => e == Event::StmtOk || (e matches Event::StmtFailed(_)),
        Phase::CreatingTable => e == Event::StmtOk || (e matches Event::StmtFailed(_)),
        Phase::Committing => e == Event::CommitOk || e == Event::CommitFailed,
        Phase::RollingBack(_) => e == Event::RollbackOk || e == Event::RollbackFailed,
        Phase::Done(_) => false,
    }
}

/// The transition relation of the protocol, one phase per observed event.
///
/// A statement failure that names an already existing object is the benign
/// "already initialized" condition — it still rolls back, but reports success;
/// every other statement failure rolls back and reports a failure. A failed
/// begin, commit or rollback round trip is a connection-level failure.
pub open spec fn step_spec(p: Phase, e: Event) -> Phase {
    match (p, e) {
        (Phase::Idle, Event::BeginOk) => Phase::Checking,
        (Phase::Idle, Event::BeginFailed) => Phase::Done(Outcome::ConnectionFailed),
        (Phase::Checking, Event::ExistsAnswer(true)) => Phase::RollingBack(
            Outcome::AlreadyInitialized,
        ),
        (Phase::Checking, Event::ExistsAnswer(false)) => Phase::CreatingNamespace,
        (Phase::Checking, Event::ExistsFailed) => Phase::RollingBack(Outcome::SetupFailed),
        (Phase::CreatingNamespace, Event::StmtOk) => Phase::CreatingTable,
        (Phase::CreatingNamespace, Event::StmtFailed(StmtFailure::AlreadyExists)) => Phase::RollingBack(
            Outcome::AlreadyInitialized,
        ),
        (Phase::CreatingNamespace, Event::StmtFailed(StmtFailure::Other)) => Phase::RollingBack(
            Outcome::SetupFailed,
        ),
        (Phase::CreatingTable, Event::StmtOk) => Phase::Committing,
        (Phase::CreatingTable, Event::StmtFailed(StmtFailure::AlreadyExists)) => Phase::RollingBack(
            Outcome::AlreadyInitialized,
        ),
        (Phase::CreatingTable, Event::StmtFailed(StmtFailure::Other)) => Phase::RollingBack(
            Outcome::SetupFailed,
        ),
        (Phase::Committing, Event::CommitOk) => Phase::Done(Outcome::Initialized),
        (Phase::Committing, Event::CommitFailed) => Phase::Done(Outcome::ConnectionFailed),
        (Phase::RollingBack(o), Event::RollbackOk) => Phase::Done(o),
        (Phase::RollingBack(_), Event::RollbackFailed) => Phase::Done(Outcome::ConnectionFailed),
        _ => p,
    }
}

/// The action the driver must perform next in phase `p`.
pub fn next_action(p: &Phase) -> (a: Action)
    ensures
        a == action_spec(*p),
{
    match p {
        Phase::Idle => Action::Begin,
        Phase::Checking => Action::CheckNamespace,
        Phase::CreatingNamespace => Action::CreateNamespace,
        Phase::CreatingTable => Action::CreateTable,
        Phase::Committing => Action::Commit,
        Phase::RollingBack(_) => Action::Rollback,
        Phase::Done(_) => Action::Stop,
    }
}

/// Whether `e` can answer the action phase `p` calls for; the driver checks
/// this before handing an event to `step`.
pub fn event_fits(p: &Phase, e: &Event) -> (b: bool)
    ensures
        b == event_expected(*p, *e),
{
    match p {
        Phase::Idle => *e == Event::BeginOk || *e == Event::BeginFailed,
        Phase::Checking => matches!(e, Event::ExistsAnswer(_)) || *e == Event::ExistsFailed,
        Phase::CreatingNamespace => *e == Event::StmtOk || matches!(e, Event::StmtFailed(_)),
        Phase::CreatingTable => *e == Event::StmtOk || matches!(e, Event::StmtFailed(_)),
        Phase::Committing => *e == Event::CommitOk || *e == Event::CommitFailed,
        Phase::RollingBack(_) => *e == Event::RollbackOk || *e == Event::RollbackFailed,
        Phase::Done(_) => false,
    }
}

/// Advance the protocol by one observed event.
pub fn step(p: Phase, e: Event) -> (r: Phase)
    requires
        event_expected(p, e),
    ensures
        r == step_spec(p, e),
{
    match (p, e) {
        (Phase::Idle, Event::BeginOk) => Phase::Checking,
        (Phase::Idle, Event::BeginFailed) => Phase::Done(Outcome::ConnectionFailed),
        (Phase::Checking, Event::ExistsAnswer(true)) => Phase::RollingBack(
            Outcome::AlreadyInitialized,
        ),
        (Phase::Checking, Event::ExistsAnswer(false)) => Phase::CreatingNamespace,
        (Phase::Checking, Event::ExistsFailed) => Phase::RollingBack(Outcome::SetupFailed),
        (Phase::CreatingNamespace, Event::StmtOk) => Phase::CreatingTable,
        (Phase::CreatingNamespace, Event::StmtFailed(StmtFailure::AlreadyExists)) => Phase::RollingBack(
            Outcome::AlreadyInitialized,
        ),
        (Phase::CreatingNamespace, Event::StmtFailed(StmtFailure::Other)) => Phase::RollingBack(
            Outcome::SetupFailed,
        ),
        (Phase::CreatingTable, Event::StmtOk) => Phase::Committing,
        (Phase::CreatingTable, Event::StmtFailed(StmtFailure::AlreadyExists)) => Phase::RollingBack(
            Outcome::AlreadyInitialized,
        ),
        (Phase::CreatingTable, Event::StmtFailed(StmtFailure::Other)) => Phase::RollingBack(
            Outcome::SetupFailed,
        ),
        (Phase::Committing, Event::CommitOk) => Phase::Done(Outcome::Initialized),
        (Phase::Committing, Event::CommitFailed) => Phase::Done(Outcome::ConnectionFailed),
        (Phase::RollingBack(o), Event::RollbackOk) => Phase::Done(o),
        (Phase::RollingBack(_), Event::RollbackFailed) => Phase::Done(Outcome::ConnectionFailed),
        (q, _) => q,
    }
}

} // verus!
