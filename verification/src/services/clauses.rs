//! The clauses of a `SELECT` statement that depend on the query value:
//! `WHERE`, `ORDER BY` and `LIMIT .. OFFSET ..`.

use crate::repositories::bind_value::{BindValue, BindValueView};
use crate::repositories::listable::{FilterOp, FilterView};
use crate::text::{
    decimal, eq_ignore_ascii_case, join, lemma_join_step, push_decimal,
    same_ignoring_ascii_case, spec_eq_ignore_ascii_case,
};
use vstd::math::max;
use vstd::prelude::*;

verus! {

/// The text of the filter at position `i`, counted from zero: the column,
/// the operator and the placeholder `$(i + 1)`.
pub open spec fn predicate(filter: FilterView, i: int) -> Seq<char> {
    filter.0 + filter.1.operator() + decimal((i + 1) as nat)
}

/// The texts of all filters, in filter order.
pub open spec fn predicates(filters: Seq<FilterView>) -> Seq<Seq<char>> {
    Seq::new(filters.len(), |i: int| predicate(filters[i], i))
}

/// The `WHERE` clause: empty without filters, else the predicates joined
/// by `AND`.
pub open spec fn where_clause(filters: Seq<FilterView>) -> Seq<char> {
    if filters.len() == 0 {
        Seq::empty()
    } else {
        " WHERE "@ + join(predicates(filters), " AND "@)
    }
}

/// The values bound for the filters, in filter order.
pub open spec fn filter_binds(filters: Seq<FilterView>) -> Seq<BindValueView> {
    Seq::new(filters.len(), |i: int| BindValueView::Text(filters[i].1.bound_value()))
}

/// With `k` filters there are `k` predicates and `k` bound values, both in
/// filter order: predicate `i` names the column of filter `i` and the
/// placeholder `$(i + 1)`, and bound value `i` is the one of filter `i`.
/// Without filters the `WHERE` clause is empty; with filters it is the
/// predicates joined by `AND`.
pub proof fn lemma_where_clause_shape(filters: Seq<FilterView>)
    ensures
        predicates(filters).len() == filters.len(),
        forall|i: int|
            0 <= i < filters.len() ==> #[trigger] predicates(filters)[i] == filters[i].0
                + filters[i].1.operator() + decimal((i + 1) as nat),
        filter_binds(filters).len() == filters.len(),
        forall|i: int|
            0 <= i < filters.len() ==> #[trigger] filter_binds(filters)[i] == BindValueView::Text(
                filters[i].1.bound_value(),
            ),
        filters.len() == 0 ==> where_clause(filters) == Seq::<char>::empty(),
        filters.len() > 0 ==> where_clause(filters) == " WHERE "@ + join(
            predicates(filters),
            " AND "@,
        ),
{
}

/// Whether two filter lists name the same columns with the same kinds of
/// predicate, position by position. Their values may differ.
pub open spec fn same_shape(a: Seq<FilterView>, b: Seq<FilterView>) -> bool {
    &&& a.len() == b.len()
    &&& forall|i: int|
        0 <= i < a.len() ==> (#[trigger] a[i]).0 == b[i].0 && (a[i].1 is Eq <==> b[i].1 is Eq)
}

/// The values of the filters never reach the text: filter lists of the
/// same shape give the same `WHERE` clause, whatever their values.
pub proof fn lemma_where_clause_ignores_values(a: Seq<FilterView>, b: Seq<FilterView>)
    requires
        same_shape(a, b),
    ensures
        where_clause(a) == where_clause(b),
{
    assert forall|i: int| 0 <= i < a.len() implies predicates(a)[i] == predicates(b)[i] by {
        assert(a[i].0 == b[i].0);
        assert(a[i].1.operator() == b[i].1.operator());
    }
    assert(predicates(a) =~= predicates(b));
}

/// Appends the `WHERE` clause for `filters` to `query` and returns the
/// values to bind, one per filter.
pub fn push_where_clause(query: &mut String, filters: &[(&str, FilterOp)]) -> (binds: Vec<
    BindValue,
>)
    ensures
        final(query)@ == old(query)@ + where_clause(filters.deep_view()),
        binds.deep_view() == filter_binds(filters.deep_view()),
{
    let ghost fs = filters.deep_view();
    let ghost texts = predicates(fs);
    let mut binds: Vec<BindValue> = Vec::new();
    if filters.len() > 0 {
        query.append(" WHERE ");
        let mut i: usize = 0;
        while i < filters.len()
            invariant
                i <= filters.len(),
                fs == filters.deep_view(),
                texts == predicates(fs),
                query@ == old(query)@ + " WHERE "@ + join(texts.take(i as int), " AND "@),
                binds.deep_view() == filter_binds(fs).take(i as int),
            decreases filters.len() - i,
        {
            proof {
                lemma_join_step(texts, " AND "@, i as int);
            }
            if i > 0 {
                query.append(" AND ");
            }
            let filter = &filters[i];
            query.append(filter.0);
            query.append(filter.1.operator());
            push_decimal(query, i as u128 + 1);
            let ghost before = binds.deep_view();
            binds.push(BindValue::Text(filter.1.bound_value()));
            assert(binds.deep_view() =~= before.push(filter_binds(fs)[i as int]));
            i += 1;
        }
        assert(texts.take(i as int) =~= texts);
        assert(filter_binds(fs).take(i as int) =~= filter_binds(fs));
    }
    binds
}

/// Whether a direction asks for descending order: it reads `DESC` in any
/// mix of upper and lower case.
pub open spec fn spec_is_descending(direction: Seq<char>) -> bool {
    spec_eq_ignore_ascii_case(direction, "DESC"@)
}

/// The keyword a direction is normalised to: `DESC` for a descending
/// one, `ASC` for everything else.
pub open spec fn spec_direction_keyword(direction: Seq<char>) -> Seq<char> {
    if spec_is_descending(direction) {
        "DESC"@
    } else {
        "ASC"@
    }
}

/// A direction is descending exactly when it spells `DESC`, each letter
/// in either case.
pub proof fn lemma_descending_spelling(direction: Seq<char>)
    ensures
        spec_is_descending(direction) <==> {
            &&& direction.len() == 4
            &&& (direction[0] == 'D' || direction[0] == 'd')
            &&& (direction[1] == 'E' || direction[1] == 'e')
            &&& (direction[2] == 'S' || direction[2] == 's')
            &&& (direction[3] == 'C' || direction[3] == 'c')
        },
{
    reveal_strlit("DESC");
    if spec_is_descending(direction) {
        assert(same_ignoring_ascii_case(direction[0], "DESC"@[0]));
        assert(same_ignoring_ascii_case(direction[1], "DESC"@[1]));
        assert(same_ignoring_ascii_case(direction[2], "DESC"@[2]));
        assert(same_ignoring_ascii_case(direction[3], "DESC"@[3]));
    }
}

/// The case of a direction's letters does not matter: two directions
/// that differ only in the case of ASCII letters give the same keyword.
pub proof fn lemma_direction_ignores_case(a: Seq<char>, b: Seq<char>)
    requires
        spec_eq_ignore_ascii_case(a, b),
    ensures
        spec_direction_keyword(a) == spec_direction_keyword(b),
{
    let desc = "DESC"@;
    if spec_is_descending(a) {
        assert forall|i: int| 0 <= i < b.len() implies same_ignoring_ascii_case(
            #[trigger] b[i],
            desc[i],
        ) by {
            assert(same_ignoring_ascii_case(a[i], b[i]));
            assert(same_ignoring_ascii_case(a[i], desc[i]));
        }
    }
    if spec_is_descending(b) {
        assert forall|i: int| 0 <= i < a.len() implies same_ignoring_ascii_case(
            #[trigger] a[i],
            desc[i],
        ) by {
            assert(same_ignoring_ascii_case(a[i], b[i]));
            assert(same_ignoring_ascii_case(b[i], desc[i]));
        }
    }
}

/// Every direction that is not a spelling of `DESC` is read as ascending.
pub proof fn lemma_direction_defaults_to_ascending(direction: Seq<char>)
    ensures
        !spec_eq_ignore_ascii_case(direction, "DESC"@) ==> spec_direction_keyword(direction)
            == "ASC"@,
        spec_eq_ignore_ascii_case(direction, "DESC"@) ==> spec_direction_keyword(direction)
            == "DESC"@,
{
}

/// The `ORDER BY` clause: empty without an ordering, else the column and
/// the normalised direction.
pub open spec fn order_clause(order_by: Option<(Seq<char>, Seq<char>)>) -> Seq<char> {
    match order_by {
        Some((column, direction)) => " ORDER BY "@ + column + " "@ + spec_direction_keyword(
            direction,
        ),
        None => Seq::empty(),
    }
}

/// The number of rows to skip for a page counted from one. Page zero is
/// read as page one.
pub open spec fn spec_page_offset(page: u32, per_page: u32) -> nat {
    (max(page - 1, 0) * per_page) as nat
}

/// Whether a page is asked for: both the page and the page size are
/// given, and the page size is not zero.
pub open spec fn spec_is_paged(page: Option<u32>, per_page: Option<u32>) -> bool {
    page is Some && per_page is Some && per_page->0 > 0
}

/// The `LIMIT .. OFFSET ..` clause: empty unless a page is asked for,
/// else the page size and the offset, both written out as numbers.
pub open spec fn page_clause(page: Option<u32>, per_page: Option<u32>) -> Seq<char> {
    if spec_is_paged(page, per_page) {
        " LIMIT "@ + decimal(per_page->0 as nat) + " OFFSET "@ + decimal(
            spec_page_offset(page->0, per_page->0),
        )
    } else {
        Seq::empty()
    }
}

/// Without a page or without a page size there is no `LIMIT .. OFFSET ..`
/// clause, whatever the other one is; nor is there one for a page size of
/// zero.
pub proof fn lemma_page_clause_absent(page: Option<u32>, per_page: Option<u32>)
    requires
        page is None || per_page is None || per_page == Some(0u32),
    ensures
        page_clause(page, per_page) == Seq::<char>::empty(),
{
}

/// The offset skips the pages before the one asked for: none for the
/// pages zero and one, `page - 1` full pages otherwise.
pub proof fn lemma_page_offset(page: u32, per_page: u32)
    ensures
        page <= 1 ==> spec_page_offset(page, per_page) == 0,
        page >= 1 ==> spec_page_offset(page, per_page) == (page - 1) * per_page,
{
    assert(0 * per_page == 0);
}

/// Whether a direction asks for descending order.
pub fn is_descending(direction: &str) -> (descending: bool)
    ensures
        descending == spec_is_descending(direction@),
{
    eq_ignore_ascii_case(direction, "DESC")
}

/// The keyword a direction is normalised to.
pub fn direction_keyword(direction: &str) -> (keyword: &'static str)
    ensures
        keyword@ == spec_direction_keyword(direction@),
{
    if is_descending(direction) {
        "DESC"
    } else {
        "ASC"
    }
}

/// Appends the `ORDER BY` clause for `order_by` to `query`.
pub fn push_order_clause(query: &mut String, order_by: Option<(&str, &str)>)
    ensures
        final(query)@ == old(query)@ + order_clause(order_by.deep_view()),
{
    if let Some((column, direction)) = order_by {
        query.append(" ORDER BY ");
        query.append(column);
        query.append(" ");
        query.append(direction_keyword(direction));
    }
}

/// The number of rows to skip for a page counted from one.
pub fn page_offset(page: u32, per_page: u32) -> (offset: u64)
    ensures
        offset == spec_page_offset(page, per_page),
{
    let skipped: u64 = page.saturating_sub(1) as u64;
    assert(skipped * per_page <= 0xffff_ffff * 0xffff_ffff) by (nonlinear_arith)
        requires
            skipped <= 0xffff_ffff,
            per_page <= 0xffff_ffff,
    ;
    skipped * (per_page as u64)
}

/// Appends the `LIMIT .. OFFSET ..` clause to `query`.
pub fn push_page_clause(query: &mut String, page: Option<u32>, per_page: Option<u32>)
    ensures
        final(query)@ == old(query)@ + page_clause(page, per_page),
{
    if let (Some(page), Some(per_page)) = (page, per_page) {
        if per_page > 0 {
            query.append(" LIMIT ");
            push_decimal(query, per_page as u128);
            query.append(" OFFSET ");
            push_decimal(query, page_offset(page, per_page) as u128);
        }
    }
}

} // verus!
