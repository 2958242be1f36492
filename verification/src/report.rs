//! What the flow prints: the status lines and the result of the seed write.

use crate::decimal::{decimal, push_decimal, push_signed_decimal, signed_decimal};
use vstd::prelude::*;
use vstd::string::StringExecFns;

verus! {

/// What the store reported of a statement that it executed.
#[derive(Clone, Copy, Debug, PartialEq, Eq)]
pub struct WriteResult {
    /// The number of rows that the statement changed.
    pub rows_affected: u64,
    /// The identity that the store assigned to the last inserted row.
    pub last_insert_rowid: i64,
}

impl WriteResult {
    /// The line that shows the result. It reads as the debug form of the
    /// SQLite client's own result value does, with both numbers in decimal.
    pub open spec fn rendering(self) -> Seq<char> {
        "SqliteQueryResult { changes: "@ + decimal(self.rows_affected as nat)
            + ", last_insert_rowid: "@ + signed_decimal(self.last_insert_rowid as int) + " }"@
    }

    /// Renders the result as a line of output.
    pub fn render(&self) -> (text: String)
        ensures
            text@ == self.rendering(),
    {
        let mut text = String::from_str("SqliteQueryResult { changes: ");
        push_decimal(&mut text, self.rows_affected);
        text.append(", last_insert_rowid: ");
        push_signed_decimal(&mut text, self.last_insert_rowid);
        text.append(" }");
        text
    }
}

/// A line of process output.
#[derive(Debug, PartialEq, Eq)]
pub enum Line {
    /// The store was created and the schema applied.
    Created,
    /// The store was created, but the schema could not be applied; the
    /// failure's text.
    SchemaFailed(String),
    /// The store was found: nothing was created.
    AlreadyExists,
    /// The seed row was written; what the store reported.
    Written(WriteResult),
}

impl Line {
    /// The text of the line, without a line break.
    pub open spec fn rendering(self) -> Seq<char> {
        match self {
            Line::Created => "Database created successfully"@,
            Line::SchemaFailed(detail) => "Error: "@ + detail@,
            Line::AlreadyExists => "Database already exists"@,
            Line::Written(result) => result.rendering(),
        }
    }

    /// The text to print.
    pub fn text(&self) -> (text: String)
        ensures
            text@ == self.rendering(),
    {
        match self {
            Line::Created => String::from_str("Database created successfully"),
            Line::SchemaFailed(detail) => {
                let mut text = String::from_str("Error: ");
                text.append(detail.as_str());
                text
            },
            Line::AlreadyExists => String::from_str("Database already exists"),
            Line::Written(result) => result.render(),
        }
    }
}

} // verus!
