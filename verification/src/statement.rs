//! The fixed statements that the flow sends to the store.

use vstd::prelude::*;

verus! {

/// The schema batch: foreign-key enforcement for the session, then the
/// `settings` and `project` tables, each created only when it is missing.
pub const SCHEMA_SQL: &'static str = "
        PRAGMA foreign_keys = ON;
        CREATE TABLE IF NOT EXISTS settings (
            settings_id INTEGER PRIMARY KEY NOT NULL,
            description TEXT NOT NULL,
            created_on DATETIME DEFAULT (datetime('now', 'localtime')),
            updated_on DATETIME DEFAULT (datetime('now', 'localtime')),
            done BOOLEAN NOT NULL DEFAULT 0
        );
        CREATE TABLE IF NOT EXISTS project (
            project_id INTEGER PRIMARY KEY NOT NULL
        );
    ";

/// The seed insert: one row of `settings`, of which only the description is
/// given; the store assigns the identity and fills in the defaults.
pub const SEED_INSERT_SQL: &'static str = "INSERT INTO settings (description) VALUES (?1)";

/// The description that every seed row carries.
pub const SEED_DESCRIPTION: &'static str = "testing";

/// A statement that the flow can ask the driver to execute. There is no
/// other: the flow never updates or deletes a row.
#[derive(Clone, Copy, Debug, PartialEq, Eq)]
pub enum Statement {
    /// The schema batch.
    Schema,
    /// The insert of the seed row.
    SeedInsert,
}

impl Statement {
    /// The text of the statement.
    pub open spec fn sql_text(self) -> Seq<char> {
        match self {
            Statement::Schema => SCHEMA_SQL@,
            Statement::SeedInsert => SEED_INSERT_SQL@,
        }
    }

    /// The values bound to the statement's placeholders, in order.
    pub open spec fn bound_values(self) -> Seq<Seq<char>> {
        match self {
            Statement::Schema => seq![],
            Statement::SeedInsert => seq![SEED_DESCRIPTION@],
        }
    }

    /// The text to hand to the store.
    pub fn sql(&self) -> (text: &'static str)
        ensures
            text@ == self.sql_text(),
    {
        match self {
            Statement::Schema => SCHEMA_SQL,
            Statement::SeedInsert => SEED_INSERT_SQL,
        }
    }

    /// The values to bind, in the order of the placeholders: none for the
    /// schema batch, the seed description for the insert.
    pub fn parameters(&self) -> (values: Vec<&'static str>)
        ensures
            values@.len() == self.bound_values().len(),
            forall|i: int| 0 <= i < values@.len() ==> (#[trigger] values@[i])@ == self.bound_values()[i],
    {
        let mut values: Vec<&'static str> = Vec::new();
        match self {
            Statement::Schema => {},
            Statement::SeedInsert => {
                values.push(SEED_DESCRIPTION);
            },
        }
        values
    }
}

} // verus!
