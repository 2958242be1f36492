//! Decisions of a store bootstrap: probe a file-backed store, create and
//! schematize it when it is absent, then write one seed row.
//!
//! The library performs no I/O. It is a state machine: it issues an
//! [`protocol::Action`], its driver performs the action on the store and
//! answers with an [`protocol::Event`], and the library decides what comes
//! next.

pub mod decimal;
pub mod flow;
pub mod protocol;
pub mod report;
pub mod run;
pub mod schema;
pub mod seed;
pub mod statement;
