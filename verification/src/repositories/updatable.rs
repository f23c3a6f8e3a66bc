//! The capability of being updated by identifier.

use crate::repositories::bind_value::{BindValue, BindValueView};
use vstd::prelude::*;

verus! {

/// A record that carries new field values for the row named by its
/// identifier.
///
/// Each executable method has a `spec_` twin that names its result in
/// contracts.
pub trait Updatable: Sized {
    /// The table to update.
    spec fn spec_table() -> Seq<char>;

    /// The table to update.
    fn table() -> (t: &'static str)
        ensures
            t@ == Self::spec_table(),
    ;

    /// The column that holds the identifier.
    spec fn spec_id_column() -> Seq<char>;

    /// The column that holds the identifier.
    fn id_column() -> (c: &'static str)
        ensures
            c@ == Self::spec_id_column(),
    ;

    /// The columns to set, in order, without the identifier column.
    spec fn spec_columns() -> Seq<Seq<char>>;

    /// The identifier column is not among the columns to set.
    proof fn lemma_columns_exclude_id()
        ensures
            !Self::spec_columns().contains(Self::spec_id_column()),
    ;

    /// The columns to set, in order.
    fn columns() -> (c: &'static [&'static str])
        ensures
            c.deep_view() == Self::spec_columns(),
    ;

    /// The identifier of the row to update.
    spec fn spec_id(&self) -> BindValueView;

    /// The values of the fields in column order, then the identifier.
    spec fn spec_bind_update(&self) -> Seq<BindValueView>;

    /// There is one value for each column, and the identifier comes last.
    proof fn lemma_bind_update_shape(&self)
        ensures
            self.spec_bind_update().len() == Self::spec_columns().len() + 1,
            self.spec_bind_update().last() == self.spec_id(),
    ;

    /// Hands out the values of the fields in column order, then the
    /// identifier.
    fn bind_update(self) -> (values: Vec<BindValue>)
        ensures
            values.deep_view() == self.spec_bind_update(),
    ;
}

} // verus!
