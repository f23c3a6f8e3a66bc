//! The capability of being inserted as a new row.

use crate::repositories::bind_value::{BindValue, BindValueView};
use vstd::prelude::*;

verus! {

/// A record that can be inserted as a new row.
///
/// Each executable method has a `spec_` twin that names its result in
/// contracts.
pub trait Insertable: Sized {
    /// The table to insert into.
    spec fn spec_table() -> Seq<char>;

    /// The table to insert into.
    fn table() -> (t: &'static str)
        ensures
            t@ == Self::spec_table(),
    ;

    /// The columns to fill, in order. The identifier is not among them:
    /// the storage assigns it.
    spec fn spec_columns() -> Seq<Seq<char>>;

    /// The columns to fill, in order.
    fn columns() -> (c: &'static [&'static str])
        ensures
            c.deep_view() == Self::spec_columns(),
    ;

    /// The values of the record's fields, in column order.
    spec fn spec_bind(&self) -> Seq<BindValueView>;

    /// There is one value for each column.
    proof fn lemma_bind_len(&self)
        ensures
            self.spec_bind().len() == Self::spec_columns().len(),
    ;

    /// Hands out the values of the record's fields, in column order.
    fn bind(self) -> (values: Vec<BindValue>)
        ensures
            values.deep_view() == self.spec_bind(),
    ;
}

} // verus!
