//! Transactional, idempotent bootstrap of a schema-migration tracking
//! namespace in a relational database.
//!
//! The bootstrap protocol is a small state machine: the driver performs one
//! database action per step (begin a transaction, check whether the tracking
//! namespace exists, create the namespace, create the change-record table,
//! commit, roll back) and feeds the observed result back into the machine.
//! Everything the machine decides — what to do next, when to commit, when to
//! roll back, and how the outcome maps to exit behaviour — is verified here.
//! The driver that talks to the database lives outside the library.

pub mod bootstrap;
pub mod model;
pub mod shell;
