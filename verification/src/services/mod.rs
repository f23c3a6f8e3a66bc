//! The statement builders and what they are built from.

pub mod clauses;
pub mod generic_query;
pub mod statement;
