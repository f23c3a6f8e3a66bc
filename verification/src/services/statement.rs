//! A statement ready to be executed: its text, the values for its
//! placeholders, and how it is to be run.

use crate::repositories::bind_value::{BindValue, BindValueView};
use vstd::prelude::*;

verus! {

/// How many rows the caller is to expect from a statement.
#[derive(Clone, Copy, Debug, PartialEq, Eq, Structural)]
pub enum Fetch {
    /// Any number of rows, also none.
    All,
    /// Exactly one row; no row at all is an error of the execution.
    One,
}

/// One SQL statement with everything needed to run it.
#[derive(Debug, PartialEq, Eq)]
pub struct Statement {
    /// The statement text, with `$1`, `$2`, ... where values go.
    pub sql: String,
    /// The values for the placeholders: `binds[i]` belongs to `$(i + 1)`.
    pub binds: Vec<BindValue>,
    /// Whether the prepared statement is worth caching by the connection.
    pub persistent: bool,
    /// How many rows to expect.
    pub fetch: Fetch,
}

/// The mathematical value of a [`Statement`].
pub struct StatementView {
    pub sql: Seq<char>,
    pub binds: Seq<BindValueView>,
    pub persistent: bool,
    pub fetch: Fetch,
}

impl View for Statement {
    type V = StatementView;

    open spec fn view(&self) -> StatementView {
        StatementView {
            sql: self.sql@,
            binds: self.binds.deep_view(),
            persistent: self.persistent,
            fetch: self.fetch,
        }
    }
}

} // verus!
