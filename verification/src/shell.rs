//! The decisions of the command shell: which directive a subcommand maps to,
//! the exact SQL text behind each database action, the exit code and the
//! message each outcome maps to. The shell itself — argument vector, process
//! environment, standard output — stays outside the library and only carries
//! these values.

use vstd::prelude::*;

use crate::bootstrap::{Action, Outcome};

verus! {

/// How the connection string is chosen: an explicit flag wins over the
/// environment; with neither, the tool must fail fast before connecting.
pub fn resolve_database_uri(flag: Option<String>, env_uri: Option<String>) -> (r: Option<
    String,
>)
    ensures
        flag matches Some(u) ==> r == Some(u),
        flag is None ==> r == env_uri,
{
    match flag {
        Some(u) => Some(u),
        None => env_uri,
    }
}

/// What the command line asks the tool to do.
#[derive(Clone, Copy, Debug, PartialEq, Eq, Structural)]
pub enum Directive {
    /// The `setup` subcommand: run the bootstrap protocol.
    RunSetup,
    /// No subcommand was given; report that and exit cleanly.
    ReportMissingCommand,
    /// An unrecognized subcommand was given; report that and exit cleanly.
    ReportUnknownCommand,
}

/// The one recognized subcommand.
pub open spec fn setup_name() -> Seq<char> {
    "setup"@
}

/// Map the subcommand the parser saw to a directive: exactly `setup` runs
/// the bootstrap, anything else is reported, not crashed on.
pub fn interpret_subcommand(sub: Option<&str>) -> (d: Directive)
    ensures
        sub is None ==> d == Directive::ReportMissingCommand,
        sub matches Some(s) ==> (d == Directive::RunSetup <==> s@ == setup_name()),
        sub matches Some(s) && s@ != setup_name() ==> d == Directive::ReportUnknownCommand,
{
    match sub {
        None => Directive::ReportMissingCommand,
        Some(s) => {
            if s.to_owned() == "setup".to_owned() {
                Directive::RunSetup
            } else {
                Directive::ReportUnknownCommand
            }
        },
    }
}

/// The outcomes the operator may treat as success: the tool did its work, or
/// the work was already done.
pub open spec fn benign(o: Outcome) -> bool {
    o == Outcome::Initialized || o == Outcome::AlreadyInitialized
}

/// The process exit code for an outcome: zero exactly on the benign ones.
pub fn exit_code_for(o: &Outcome) -> (c: i32)
    ensures
        benign(*o) ==> c == 0,
        !benign(*o) ==> c == 1,
{
    match o {
        Outcome::Initialized => 0,
        Outcome::AlreadyInitialized => 0,
        Outcome::ConnectionFailed => 1,
        Outcome::SetupFailed => 1,
    }
}

/// The text of the namespace-existence query.
pub open spec fn check_namespace_sql() -> Seq<char> {
    "SELECT EXISTS(SELECT 1 FROM pg_namespace WHERE nspname = 'db_state');"@
}

/// The text of the namespace-creation statement.
pub open spec fn create_namespace_sql() -> Seq<char> {
    "CREATE SCHEMA db_state;"@
}

/// The text of the table-creation statement: the change-record table carries
/// a generated primary key, the migration's content fingerprint and its name.
pub open spec fn create_table_sql() -> Seq<char> {
    "CREATE TABLE db_state.changes (id serial PRIMARY KEY, hash text NOT NULL, name text NOT NULL);"@
}

/// The SQL text an action sends, for the actions that send SQL; begin,
/// commit, rollback and stop are transaction-boundary operations of the
/// connection, not statements of the protocol's own.
pub fn statement_sql(a: &Action) -> (r: Option<&'static str>)
    ensures
        *a == Action::CheckNamespace ==> (r matches Some(s) && s@ == check_namespace_sql()),
        *a == Action::CreateNamespace ==> (r matches Some(s) && s@ == create_namespace_sql()),
        *a == Action::CreateTable ==> (r matches Some(s) && s@ == create_table_sql()),
        *a == Action::Begin || *a == Action::Commit || *a == Action::Rollback || *a
            == Action::Stop ==> r is None,
{
    match a {
        Action::CheckNamespace => Some(
            "SELECT EXISTS(SELECT 1 FROM pg_namespace WHERE nspname = 'db_state');",
        ),
        Action::CreateNamespace => Some("CREATE SCHEMA db_state;"),
        Action::CreateTable => Some(
            "CREATE TABLE db_state.changes (id serial PRIMARY KEY, hash text NOT NULL, name text NOT NULL);",
        ),
        Action::Begin => None,
        Action::Commit => None,
        Action::Rollback => None,
        Action::Stop => None,
    }
}

/// The line the shell prints for each outcome.
pub fn outcome_message(o: &Outcome) -> (m: &'static str)
    ensures
        *o == Outcome::Initialized ==> m@ == "database initialized for schema tracking"@,
        *o == Outcome::AlreadyInitialized ==> m@ == "database already initialized"@,
        *o == Outcome::ConnectionFailed ==> m@ == "database connection failed"@,
        *o == Outcome::SetupFailed ==> m@ == "setup failed; the database was left unchanged"@,
{
    match o {
        Outcome::Initialized => "database initialized for schema tracking",
        Outcome::AlreadyInitialized => "database already initialized",
        Outcome::ConnectionFailed => "database connection failed",
        Outcome::SetupFailed => "setup failed; the database was left unchanged",
    }
}

} // verus!
