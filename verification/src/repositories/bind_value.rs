//! A value bound to one positional placeholder of a statement.

use vstd::prelude::*;

verus! {

/// One value to bind to a placeholder. It travels beside the statement
/// text and is never spliced into it.
#[derive(Debug, PartialEq, Eq)]
pub enum BindValue {
    /// A text value.
    Text(String),
    /// A 64-bit signed integer, such as a row identifier.
    Integer(i64),
}

/// The mathematical value of a [`BindValue`].
pub enum BindValueView {
    Text(Seq<char>),
    Integer(int),
}

impl View for BindValue {
    type V = BindValueView;

    open spec fn view(&self) -> BindValueView {
        match self {
            BindValue::Text(t) => BindValueView::Text(t@),
            BindValue::Integer(n) => BindValueView::Integer(*n as int),
        }
    }
}

impl DeepView for BindValue {
    type V = BindValueView;

    open spec fn deep_view(&self) -> BindValueView {
        self@
    }
}

} // verus!
