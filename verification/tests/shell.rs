use schema::bootstrap::{Action, Outcome};
use schema::shell::{
    Directive, exit_code_for, interpret_subcommand, outcome_message, resolve_database_uri,
    statement_sql,
};

#[test]
fn flag_wins_over_environment() {
    let r = resolve_database_uri(
        Some("postgres://flag".to_owned()),
        Some("postgres://env".to_owned()),
    );
    assert_eq!(r, Some("postgres://flag".to_owned()));
}

#[test]
fn environment_is_the_fallback() {
    let r = resolve_database_uri(None, Some("postgres://env".to_owned()));
    assert_eq!(r, Some("postgres://env".to_owned()));
}

#[test]
fn neither_source_fails_fast() {
    let r = resolve_database_uri(None, None);
    assert_eq!(r, None);
}

#[test]
fn setup_subcommand_runs_setup() {
    assert_eq!(interpret_subcommand(Some("setup")), Directive::RunSetup);
}

#[test]
fn missing_subcommand_is_reported() {
    assert_eq!(
        interpret_subcommand(None),
        Directive::ReportMissingCommand
    );
}

#[test]
fn unknown_subcommand_is_reported() {
    assert_eq!(
        interpret_subcommand(Some("teardown")),
        Directive::ReportUnknownCommand
    );
    assert_eq!(
        interpret_subcommand(Some("Setup")),
        Directive::ReportUnknownCommand
    );
    assert_eq!(
        interpret_subcommand(Some("")),
        Directive::ReportUnknownCommand
    );
}

#[test]
fn statement_texts_are_exact() {
    assert_eq!(
        statement_sql(&Action::CheckNamespace),
        Some("SELECT EXISTS(SELECT 1 FROM pg_namespace WHERE nspname = 'db_state');")
    );
    assert_eq!(
        statement_sql(&Action::CreateNamespace),
        Some("CREATE SCHEMA db_state;")
    );
    assert_eq!(
        statement_sql(&Action::CreateTable),
        Some(
            "CREATE TABLE db_state.changes (id serial PRIMARY KEY, hash text NOT NULL, name text NOT NULL);"
        )
    );
    assert_eq!(statement_sql(&Action::Begin), None);
    assert_eq!(statement_sql(&Action::Commit), None);
    assert_eq!(statement_sql(&Action::Rollback), None);
    assert_eq!(statement_sql(&Action::Stop), None);
}

#[test]
fn exit_codes_follow_the_taxonomy() {
    assert_eq!(exit_code_for(&Outcome::Initialized), 0);
    assert_eq!(exit_code_for(&Outcome::AlreadyInitialized), 0);
    assert_eq!(exit_code_for(&Outcome::ConnectionFailed), 1);
    assert_eq!(exit_code_for(&Outcome::SetupFailed), 1);
}

#[test]
fn outcome_messages() {
    assert_eq!(
        outcome_message(&Outcome::Initialized),
        "database initialized for schema tracking"
    );
    assert_eq!(
        outcome_message(&Outcome::AlreadyInitialized),
        "database already initialized"
    );
    assert_eq!(
        outcome_message(&Outcome::ConnectionFailed),
        "database connection failed"
    );
    assert_eq!(
        outcome_message(&Outcome::SetupFailed),
        "setup failed; the database was left unchanged"
    );
}
