//! The capability of being listed: a table, the columns to select, and a
//! query value that yields filters and an optional page.

use vstd::prelude::*;

verus! {

/// The predicate of one filter, with the value it compares against.
#[derive(Debug, PartialEq, Eq)]
pub enum FilterOp {
    /// The column equals the value.
    Eq(String),
    /// The column contains the value, ignoring case.
    ILike(String),
}

/// The mathematical value of a [`FilterOp`].
pub enum FilterOpView {
    Eq(Seq<char>),
    ILike(Seq<char>),
}

impl FilterOpView {
    /// The value as the caller gave it.
    pub open spec fn value(self) -> Seq<char> {
        match self {
            FilterOpView::Eq(v) => v,
            FilterOpView::ILike(v) => v,
        }
    }

    /// The value that is bound for this predicate: a partial match is
    /// wrapped in `%` wildcards, an equality is bound as it is.
    pub open spec fn bound_value(self) -> Seq<char> {
        match self {
            FilterOpView::Eq(v) => v,
            FilterOpView::ILike(v) => "%"@ + v + "%"@,
        }
    }

    /// The text that stands between the column and the placeholder index.
    pub open spec fn operator(self) -> Seq<char> {
        match self {
            FilterOpView::Eq(_) => " = $"@,
            FilterOpView::ILike(_) => " ILIKE $"@,
        }
    }
}

/// A partial match binds its value between two `%` wildcards; an
/// equality binds its value unchanged.
pub proof fn lemma_bound_value_wildcards(op: FilterOpView)
    ensures
        op is ILike ==> op.bound_value() == seq!['%'] + op.value() + seq!['%'],
        op is Eq ==> op.bound_value() == op.value(),
{
    reveal_strlit("%");
    assert("%"@ =~= seq!['%']);
}

impl View for FilterOp {
    type V = FilterOpView;

    open spec fn view(&self) -> FilterOpView {
        match self {
            FilterOp::Eq(v) => FilterOpView::Eq(v@),
            FilterOp::ILike(v) => FilterOpView::ILike(v@),
        }
    }
}

impl DeepView for FilterOp {
    type V = FilterOpView;

    open spec fn deep_view(&self) -> FilterOpView {
        self@
    }
}

impl FilterOp {
    /// The value to bind for this predicate.
    pub fn bound_value(&self) -> (s: String)
        ensures
            s@ == self@.bound_value(),
    {
        match self {
            FilterOp::Eq(v) => v.clone(),
            FilterOp::ILike(v) => {
                let mut s = String::from_str("%");
                s.append(v.as_str());
                s.append("%");
                s
            },
        }
    }

    /// The text between the column and the placeholder index.
    pub fn operator(&self) -> (s: &'static str)
        ensures
            s@ == self@.operator(),
    {
        match self {
            FilterOp::Eq(_) => " = $",
            FilterOp::ILike(_) => " ILIKE $",
        }
    }
}

/// A filter as the statement builder sees it: a column and its predicate.
pub type FilterView = (Seq<char>, FilterOpView);

/// A query value that can be turned into a `SELECT` statement.
///
/// Each executable method has a `spec_` twin that names its result in
/// contracts.
pub trait Listable {
    /// The table to select from.
    spec fn spec_table() -> Seq<char>;

    /// The table to select from.
    fn table() -> (t: &'static str)
        ensures
            t@ == Self::spec_table(),
    ;

    /// The columns to select, in order.
    spec fn spec_columns() -> Seq<Seq<char>>;

    /// The columns to select, in order.
    fn columns() -> (c: &'static [&'static str])
        ensures
            c.deep_view() == Self::spec_columns(),
    ;

    /// The active filters, in the order in which they are numbered.
    spec fn spec_filters(&self) -> Seq<FilterView>;

    /// The active filters, in the order in which they are numbered.
    fn filters(&self) -> (f: Vec<(&'static str, FilterOp)>)
        ensures
            f.deep_view() == self.spec_filters(),
    ;

    /// The page asked for, counted from one.
    spec fn spec_page(&self) -> Option<u32>;

    /// The page asked for, counted from one.
    fn page(&self) -> (p: Option<u32>)
        ensures
            p == self.spec_page(),
    ;

    /// The number of rows on a page.
    spec fn spec_per_page(&self) -> Option<u32>;

    /// The number of rows on a page.
    fn per_page(&self) -> (p: Option<u32>)
        ensures
            p == self.spec_per_page(),
    ;
}

} // verus!
