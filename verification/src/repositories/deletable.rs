//! The capability of being deleted by identifier.

use vstd::prelude::*;

verus! {

/// A record type whose rows can be deleted by identifier.
///
/// Each executable method has a `spec_` twin that names its result in
/// contracts.
pub trait Deletable {
    /// The table to delete from.
    spec fn spec_table() -> Seq<char>;

    /// The table to delete from.
    fn table() -> (t: &'static str)
        ensures
            t@ == Self::spec_table(),
    ;

    /// The column that holds the identifier.
    spec fn spec_id_column() -> Seq<char>;

    /// The column that holds the identifier.
    fn id_column() -> (c: &'static str)
        ensures
            c@ == Self::spec_id_column(),
    ;
}

} // verus!
