use schema::bootstrap::{Action, Event, Outcome, Phase, StmtFailure, event_fits, next_action, step};
use schema::shell::exit_code_for;

#[test]
fn fresh_database_scenario() {
    // A fresh, empty database: every round trip succeeds, the existence
    // query answers false, and the run commits both objects.
    let p = Phase::Idle;
    assert_eq!(next_action(&p), Action::Begin);
    let p = step(p, Event::BeginOk);
    assert_eq!(p, Phase::Checking);
    assert_eq!(next_action(&p), Action::CheckNamespace);
    let p = step(p, Event::ExistsAnswer(false));
    assert_eq!(p, Phase::CreatingNamespace);
    assert_eq!(next_action(&p), Action::CreateNamespace);
    let p = step(p, Event::StmtOk);
    assert_eq!(p, Phase::CreatingTable);
    assert_eq!(next_action(&p), Action::CreateTable);
    let p = step(p, Event::StmtOk);
    assert_eq!(p, Phase::Committing);
    assert_eq!(next_action(&p), Action::Commit);
    let p = step(p, Event::CommitOk);
    assert_eq!(p, Phase::Done(Outcome::Initialized));
    assert_eq!(next_action(&p), Action::Stop);
    assert_eq!(exit_code_for(&Outcome::Initialized), 0);
}

#[test]
fn already_initialized_scenario() {
    // The namespace exists from a prior run: the protocol finds it, ends the
    // transaction without touching anything, and reports the benign outcome.
    let p = step(Phase::Idle, Event::BeginOk);
    let p = step(p, Event::ExistsAnswer(true));
    assert_eq!(p, Phase::RollingBack(Outcome::AlreadyInitialized));
    assert_eq!(next_action(&p), Action::Rollback);
    let p = step(p, Event::RollbackOk);
    assert_eq!(p, Phase::Done(Outcome::AlreadyInitialized));
    assert_eq!(exit_code_for(&Outcome::AlreadyInitialized), 0);
}

#[test]
fn failure_between_creation_statements_rolls_back() {
    // A failure injected after the namespace statement and before the table
    // statement: the next action must be a rollback, never a commit.
    let p = step(Phase::Idle, Event::BeginOk);
    let p = step(p, Event::ExistsAnswer(false));
    let p = step(p, Event::StmtOk);
    assert_eq!(p, Phase::CreatingTable);
    let p = step(p, Event::StmtFailed(StmtFailure::Other));
    assert_eq!(p, Phase::RollingBack(Outcome::SetupFailed));
    assert_eq!(next_action(&p), Action::Rollback);
    let p = step(p, Event::RollbackOk);
    assert_eq!(p, Phase::Done(Outcome::SetupFailed));
    assert_eq!(exit_code_for(&Outcome::SetupFailed), 1);
}

#[test]
fn namespace_creation_race_is_benign() {
    // Another invocation committed the namespace between our existence check
    // and our creation statement: the duplicate-object failure is reported
    // as "already initialized", not as a crash.
    let p = step(Phase::Idle, Event::BeginOk);
    let p = step(p, Event::ExistsAnswer(false));
    let p = step(p, Event::StmtFailed(StmtFailure::AlreadyExists));
    assert_eq!(p, Phase::RollingBack(Outcome::AlreadyInitialized));
    let p = step(p, Event::RollbackOk);
    assert_eq!(p, Phase::Done(Outcome::AlreadyInitialized));
}

#[test]
fn table_creation_duplicate_is_benign() {
    let p = step(Phase::Idle, Event::BeginOk);
    let p = step(p, Event::ExistsAnswer(false));
    let p = step(p, Event::StmtOk);
    let p = step(p, Event::StmtFailed(StmtFailure::AlreadyExists));
    assert_eq!(p, Phase::RollingBack(Outcome::AlreadyInitialized));
}

#[test]
fn begin_failure_is_connection_failure() {
    let p = step(Phase::Idle, Event::BeginFailed);
    assert_eq!(p, Phase::Done(Outcome::ConnectionFailed));
    assert_eq!(next_action(&p), Action::Stop);
    assert_eq!(exit_code_for(&Outcome::ConnectionFailed), 1);
}

#[test]
fn existence_query_failure_rolls_back() {
    let p = step(Phase::Idle, Event::BeginOk);
    let p = step(p, Event::ExistsFailed);
    assert_eq!(p, Phase::RollingBack(Outcome::SetupFailed));
    let p = step(p, Event::RollbackOk);
    assert_eq!(p, Phase::Done(Outcome::SetupFailed));
}

#[test]
fn commit_failure_is_connection_failure() {
    let p = step(Phase::Idle, Event::BeginOk);
    let p = step(p, Event::ExistsAnswer(false));
    let p = step(p, Event::StmtOk);
    let p = step(p, Event::StmtOk);
    let p = step(p, Event::CommitFailed);
    assert_eq!(p, Phase::Done(Outcome::ConnectionFailed));
}

#[test]
fn rollback_failure_is_connection_failure() {
    let p = step(Phase::Idle, Event::BeginOk);
    let p = step(p, Event::ExistsFailed);
    let p = step(p, Event::RollbackFailed);
    assert_eq!(p, Phase::Done(Outcome::ConnectionFailed));
}

#[test]
fn event_fits_guards_the_driver() {
    assert!(event_fits(&Phase::Idle, &Event::BeginOk));
    assert!(event_fits(&Phase::Idle, &Event::BeginFailed));
    assert!(!event_fits(&Phase::Idle, &Event::StmtOk));
    assert!(event_fits(&Phase::Checking, &Event::ExistsAnswer(true)));
    assert!(!event_fits(&Phase::Checking, &Event::CommitOk));
    assert!(event_fits(
        &Phase::CreatingNamespace,
        &Event::StmtFailed(StmtFailure::AlreadyExists)
    ));
    assert!(event_fits(&Phase::Committing, &Event::CommitFailed));
    assert!(event_fits(
        &Phase::RollingBack(Outcome::SetupFailed),
        &Event::RollbackOk
    ));
    assert!(!event_fits(
        &Phase::Done(Outcome::Initialized),
        &Event::BeginOk
    ));
}
