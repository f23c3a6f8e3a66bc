//! The capabilities a record type can declare, one trait each, and the
//! values that travel with them.

pub mod bind_value;
pub mod deletable;
pub mod insertable;
pub mod listable;
pub mod updatable;
