//! A small, verified query layer for relational tables, and the city
//! resource built on it.
//!
//! A record type declares which of four capabilities it has (it can be
//! listed, inserted, updated, deleted) together with its table and column
//! names: see [`repositories`]. From that metadata the statement builders
//! in [`services`] produce the text of one SQL statement and the values to
//! bind to its positional placeholders. Every builder comes with a
//! contract that pins the text and the bind list down character by
//! character.
//!
//! The crate never talks to a database: a
//! [`services::statement::Statement`] is plain data, to be executed by the
//! caller, and [`controllers`] says how to answer once that is done.

pub mod controllers;
pub mod models;
pub mod repositories;
pub mod requests;
pub mod resources;
pub mod services;
pub mod text;
