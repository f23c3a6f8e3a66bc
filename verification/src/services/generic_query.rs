//! The four statement builders: list, insert, update and delete.
//!
//! Each builder comes in two forms. `list_statement` and its siblings take
//! the table and the columns as plain texts; `generic_list` and its
//! siblings read them from a record type that declares the capability.
//! Both return a [`Statement`]. Values never enter the statement text:
//! the text holds numbered placeholders, and the values travel in the
//! bind list.

use crate::repositories::bind_value::{BindValue, BindValueView};
use crate::repositories::deletable::Deletable;
use crate::repositories::insertable::Insertable;
use crate::repositories::listable::{FilterOp, FilterView, Listable};
use crate::repositories::updatable::Updatable;
use crate::services::clauses::{
    filter_binds, lemma_page_clause_absent, lemma_where_clause_ignores_values,
    lemma_where_clause_shape, order_clause, page_clause, predicates, push_order_clause,
    push_page_clause, push_where_clause, same_shape, where_clause,
};
use crate::services::statement::{Fetch, Statement, StatementView};
use crate::text::{
    decimal, join, lemma_decimal_injective, lemma_join_step, push_decimal, push_joined,
};
use vstd::prelude::*;

verus! {

/// `SELECT <columns> FROM <table>`, the columns separated by `", "`.
pub open spec fn select_clause(table: Seq<char>, columns: Seq<Seq<char>>) -> Seq<char> {
    "SELECT "@ + join(columns, ", "@) + " FROM "@ + table
}

/// The statement that lists the rows of `table` that pass all `filters`.
///
/// Its text is the `SELECT` followed by the `WHERE`, `ORDER BY` and
/// `LIMIT .. OFFSET ..` clauses, each of which may be empty. It binds one
/// value per filter, is not worth caching, and may return any number of
/// rows.
pub open spec fn spec_list_statement(
    table: Seq<char>,
    columns: Seq<Seq<char>>,
    filters: Seq<FilterView>,
    order_by: Option<(Seq<char>, Seq<char>)>,
    page: Option<u32>,
    per_page: Option<u32>,
) -> StatementView {
    StatementView {
        sql: select_clause(table, columns) + where_clause(filters) + order_clause(order_by)
            + page_clause(page, per_page),
        binds: filter_binds(filters),
        persistent: false,
        fetch: Fetch::All,
    }
}

/// Builds the statement that lists the rows of `table` that pass all
/// `filters`, ordered by `order_by` (a column and a direction) if that is
/// given, and cut to one page if a page is asked for.
pub fn list_statement(
    table: &str,
    columns: &[&str],
    filters: &[(&str, FilterOp)],
    order_by: Option<(&str, &str)>,
    page: Option<u32>,
    per_page: Option<u32>,
) -> (statement: Statement)
    ensures
        statement@ == spec_list_statement(
            table@,
            columns.deep_view(),
            filters.deep_view(),
            order_by.deep_view(),
            page,
            per_page,
        ),
{
    let mut query = String::from_str("SELECT ");
    push_joined(&mut query, columns, ", ");
    query.append(" FROM ");
    query.append(table);
    let binds = push_where_clause(&mut query, filters);
    push_order_clause(&mut query, order_by);
    push_page_clause(&mut query, page, per_page);
    Statement { sql: query, binds, persistent: false, fetch: Fetch::All }
}

/// The statement that [`generic_list`] builds for `filter` and `order_by`.
pub open spec fn spec_generic_list<F: Listable>(
    filter: F,
    order_by: Option<(Seq<char>, Seq<char>)>,
) -> StatementView {
    spec_list_statement(
        F::spec_table(),
        F::spec_columns(),
        filter.spec_filters(),
        order_by,
        filter.spec_page(),
        filter.spec_per_page(),
    )
}

/// A listing without filters has no `WHERE` clause: the ordering and the
/// page follow the `SELECT` directly, and nothing is bound.
pub proof fn lemma_list_without_filters<F: Listable>(
    filter: F,
    order_by: Option<(Seq<char>, Seq<char>)>,
)
    requires
        filter.spec_filters().len() == 0,
    ensures
        spec_generic_list(filter, order_by).sql == select_clause(
            F::spec_table(),
            F::spec_columns(),
        ) + order_clause(order_by) + page_clause(filter.spec_page(), filter.spec_per_page()),
        spec_generic_list(filter, order_by).binds.len() == 0,
{
    let head = select_clause(F::spec_table(), F::spec_columns());
    assert(head + Seq::<char>::empty() =~= head);
}

/// A listing with `k` filters has `k` predicates, joined by `AND` behind
/// one `WHERE`; predicate `i` (counted from zero) is the column and the
/// operator of filter `i` with the placeholder `$(i + 1)`. It binds `k`
/// values, value `i` being the one of filter `i`.
pub proof fn lemma_list_with_filters<F: Listable>(
    filter: F,
    order_by: Option<(Seq<char>, Seq<char>)>,
)
    ensures
        predicates(filter.spec_filters()).len() == filter.spec_filters().len(),
        forall|i: int|
            0 <= i < filter.spec_filters().len() ==> #[trigger] predicates(
                filter.spec_filters(),
            )[i] == filter.spec_filters()[i].0 + filter.spec_filters()[i].1.operator() + decimal(
                (i + 1) as nat,
            ),
        filter.spec_filters().len() > 0 ==> spec_generic_list(filter, order_by).sql
            == select_clause(F::spec_table(), F::spec_columns()) + " WHERE "@ + join(
            predicates(filter.spec_filters()),
            " AND "@,
        ) + order_clause(order_by) + page_clause(filter.spec_page(), filter.spec_per_page()),
        spec_generic_list(filter, order_by).binds.len() == filter.spec_filters().len(),
        forall|i: int|
            0 <= i < filter.spec_filters().len() ==> #[trigger] spec_generic_list(
                filter,
                order_by,
            ).binds[i] == BindValueView::Text(filter.spec_filters()[i].1.bound_value()),
{
    lemma_where_clause_shape(filter.spec_filters());
    if filter.spec_filters().len() > 0 {
        let head = select_clause(F::spec_table(), F::spec_columns());
        let listed = join(predicates(filter.spec_filters()), " AND "@);
        assert(head + (" WHERE "@ + listed) =~= head + " WHERE "@ + listed);
    }
}

/// A listing without a page, or without a page size, has no
/// `LIMIT .. OFFSET ..` clause, whatever the other one is: the text ends
/// with the ordering.
pub proof fn lemma_list_without_page<F: Listable>(
    filter: F,
    order_by: Option<(Seq<char>, Seq<char>)>,
)
    requires
        filter.spec_page() is None || filter.spec_per_page() is None,
    ensures
        spec_generic_list(filter, order_by).sql == select_clause(
            F::spec_table(),
            F::spec_columns(),
        ) + where_clause(filter.spec_filters()) + order_clause(order_by),
{
    lemma_page_clause_absent(filter.spec_page(), filter.spec_per_page());
    let text = select_clause(F::spec_table(), F::spec_columns()) + where_clause(
        filter.spec_filters(),
    ) + order_clause(order_by);
    assert(text + Seq::<char>::empty() =~= text);
}

/// The text of a listing holds no filter value: two queries with filters
/// of the same shape and the same page give the same text, and differ in
/// their bind lists alone.
pub proof fn lemma_list_text_ignores_values<F: Listable>(
    a: F,
    b: F,
    order_by: Option<(Seq<char>, Seq<char>)>,
)
    requires
        same_shape(a.spec_filters(), b.spec_filters()),
        a.spec_page() == b.spec_page(),
        a.spec_per_page() == b.spec_per_page(),
    ensures
        spec_generic_list(a, order_by).sql == spec_generic_list(b, order_by).sql,
{
    lemma_where_clause_ignores_values(a.spec_filters(), b.spec_filters());
}

/// Builds the statement that lists the rows selected by `filter`, ordered
/// by `order_by` (a column and a direction) if that is given.
///
/// The statement binds one value per filter. Without filters it has no
/// `WHERE` clause; without a page or without a page size it has no
/// `LIMIT .. OFFSET ..` clause.
pub fn generic_list<F: Listable>(filter: F, order_by: Option<(&str, &str)>) -> (statement:
    Statement)
    ensures
        statement@ == spec_generic_list(filter, order_by.deep_view()),
        statement@.binds.len() == filter.spec_filters().len(),
        filter.spec_filters().len() == 0 ==> statement@.sql == select_clause(
            F::spec_table(),
            F::spec_columns(),
        ) + order_clause(order_by.deep_view()) + page_clause(
            filter.spec_page(),
            filter.spec_per_page(),
        ),
        filter.spec_page() is None || filter.spec_per_page() is None ==> statement@.sql
            == select_clause(F::spec_table(), F::spec_columns()) + where_clause(
            filter.spec_filters(),
        ) + order_clause(order_by.deep_view()),
{
    proof {
        lemma_list_with_filters(filter, order_by.deep_view());
        if filter.spec_filters().len() == 0 {
            lemma_list_without_filters(filter, order_by.deep_view());
        }
        if filter.spec_page() is None || filter.spec_per_page() is None {
            lemma_list_without_page(filter, order_by.deep_view());
        }
    }
    let filters = filter.filters();
    list_statement(
        F::table(),
        F::columns(),
        filters.as_slice(),
        order_by,
        filter.page(),
        filter.per_page(),
    )
}

/// The placeholders `$1` to `$n`.
pub open spec fn placeholders(n: nat) -> Seq<Seq<char>> {
    Seq::new(n, |i: int| "$"@ + decimal((i + 1) as nat))
}

/// No two placeholders of a statement are the same text.
pub proof fn lemma_placeholders_distinct(n: nat)
    ensures
        forall|i: int, j: int|
            0 <= i < j < n ==> #[trigger] placeholders(n)[i] != #[trigger] placeholders(n)[j],
{
    assert forall|i: int, j: int| 0 <= i < j < n implies #[trigger] placeholders(n)[i]
        != #[trigger] placeholders(n)[j] by {
        let a = decimal((i + 1) as nat);
        let b = decimal((j + 1) as nat);
        if "$"@ + a == "$"@ + b {
            assert(a =~= ("$"@ + a).subrange("$"@.len() as int, ("$"@ + a).len() as int));
            assert(b =~= ("$"@ + b).subrange("$"@.len() as int, ("$"@ + b).len() as int));
            lemma_decimal_injective((i + 1) as nat, (j + 1) as nat);
        }
    }
}

/// `INSERT INTO <table> (<columns>) VALUES ($1, .., $n) RETURNING *`,
/// with one placeholder per column.
pub open spec fn insert_sql(table: Seq<char>, columns: Seq<Seq<char>>) -> Seq<char> {
    "INSERT INTO "@ + table + " ("@ + join(columns, ", "@) + ") VALUES ("@ + join(
        placeholders(columns.len()),
        ", "@,
    ) + ") RETURNING *"@
}

/// The statement that inserts one row and returns it.
pub open spec fn spec_insert_statement(
    table: Seq<char>,
    columns: Seq<Seq<char>>,
    values: Seq<BindValueView>,
) -> StatementView {
    StatementView {
        sql: insert_sql(table, columns),
        binds: values,
        persistent: true,
        fetch: Fetch::One,
    }
}

/// Appends the placeholders `$1` to `$n`, separated by `", "`.
fn push_placeholders(query: &mut String, n: usize)
    ensures
        final(query)@ == old(query)@ + join(placeholders(n as nat), ", "@),
{
    let ghost texts = placeholders(n as nat);
    let mut i: usize = 0;
    while i < n
        invariant
            i <= n,
            texts == placeholders(n as nat),
            query@ == old(query)@ + join(texts.take(i as int), ", "@),
        decreases n - i,
    {
        proof {
            lemma_join_step(texts, ", "@, i as int);
        }
        if i > 0 {
            query.append(", ");
        }
        query.append("$");
        push_decimal(query, i as u128 + 1);
        i += 1;
    }
    assert(texts.take(i as int) =~= texts);
}

/// Builds the statement that inserts one row with the given `values` in
/// the given `columns` and returns the row as stored. There is one
/// placeholder per column; `values` is what gets bound to them.
pub fn insert_statement(table: &str, columns: &[&str], values: Vec<BindValue>) -> (statement:
    Statement)
    ensures
        statement@ == spec_insert_statement(table@, columns.deep_view(), values.deep_view()),
{
    let mut query = String::from_str("INSERT INTO ");
    query.append(table);
    query.append(" (");
    push_joined(&mut query, columns, ", ");
    query.append(") VALUES (");
    push_placeholders(&mut query, columns.len());
    query.append(") RETURNING *");
    Statement { sql: query, binds: values, persistent: true, fetch: Fetch::One }
}

/// The statement that [`generic_insert`] builds for `value`.
pub open spec fn spec_generic_insert<T: Insertable>(value: T) -> StatementView {
    spec_insert_statement(T::spec_table(), T::spec_columns(), value.spec_bind())
}

/// An insert has as many placeholders as columns, numbered from one, and
/// binds as many values: value `i` (counted from zero) goes to `$(i + 1)`,
/// which stands where column `i` stands in the column list.
pub proof fn lemma_insert_placeholders<T: Insertable>(value: T)
    ensures
        placeholders(T::spec_columns().len()).len() == T::spec_columns().len(),
        forall|i: int|
            0 <= i < T::spec_columns().len() ==> #[trigger] placeholders(
                T::spec_columns().len(),
            )[i] == "$"@ + decimal((i + 1) as nat),
        spec_generic_insert(value).binds == value.spec_bind(),
        spec_generic_insert(value).binds.len() == T::spec_columns().len(),
{
    value.lemma_bind_len();
}

/// Builds the statement that inserts `value` as a new row and returns the
/// row as stored. It binds one value per column.
pub fn generic_insert<T: Insertable>(value: T) -> (statement: Statement)
    ensures
        statement@ == spec_generic_insert(value),
        statement@.binds.len() == T::spec_columns().len(),
{
    proof {
        lemma_insert_placeholders(value);
    }
    insert_statement(T::table(), T::columns(), value.bind())
}

/// The assignments `<column> = $<i>` of an update, numbered from one in
/// column order.
pub open spec fn assignments(columns: Seq<Seq<char>>) -> Seq<Seq<char>> {
    Seq::new(columns.len(), |i: int| columns[i] + " = $"@ + decimal((i + 1) as nat))
}

/// `UPDATE <table> SET <assignments> WHERE <id_column> = $<n + 1>
/// RETURNING *`, where `n` is the number of columns.
pub open spec fn update_sql(
    table: Seq<char>,
    columns: Seq<Seq<char>>,
    id_column: Seq<char>,
) -> Seq<char> {
    "UPDATE "@ + table + " SET "@ + join(assignments(columns), ", "@) + " WHERE "@ + id_column
        + " = $"@ + decimal(columns.len() + 1) + " RETURNING *"@
}

/// The statement that updates the row named by an identifier and returns
/// it.
pub open spec fn spec_update_statement(
    table: Seq<char>,
    columns: Seq<Seq<char>>,
    id_column: Seq<char>,
    values: Seq<BindValueView>,
) -> StatementView {
    StatementView {
        sql: update_sql(table, columns, id_column),
        binds: values,
        persistent: true,
        fetch: Fetch::One,
    }
}

/// Appends the assignments for `columns`, separated by `", "`.
fn push_assignments(query: &mut String, columns: &[&str])
    ensures
        final(query)@ == old(query)@ + join(assignments(columns.deep_view()), ", "@),
{
    let ghost texts = assignments(columns.deep_view());
    let mut i: usize = 0;
    while i < columns.len()
        invariant
            i <= columns.len(),
            texts == assignments(columns.deep_view()),
            query@ == old(query)@ + join(texts.take(i as int), ", "@),
        decreases columns.len() - i,
    {
        proof {
            lemma_join_step(texts, ", "@, i as int);
        }
        if i > 0 {
            query.append(", ");
        }
        query.append(columns[i]);
        query.append(" = $");
        push_decimal(query, i as u128 + 1);
        i += 1;
    }
    assert(texts.take(i as int) =~= texts);
}

/// Builds the statement that sets the given `columns` of the row whose
/// `id_column` equals the last placeholder, and returns the row as
/// stored. `values` is what gets bound: the new values in column order,
/// then the identifier.
pub fn update_statement(
    table: &str,
    columns: &[&str],
    id_column: &str,
    values: Vec<BindValue>,
) -> (statement: Statement)
    ensures
        statement@ == spec_update_statement(
            table@,
            columns.deep_view(),
            id_column@,
            values.deep_view(),
        ),
{
    let mut query = String::from_str("UPDATE ");
    query.append(table);
    query.append(" SET ");
    push_assignments(&mut query, columns);
    query.append(" WHERE ");
    query.append(id_column);
    query.append(" = $");
    push_decimal(&mut query, columns.len() as u128 + 1);
    query.append(" RETURNING *");
    Statement { sql: query, binds: values, persistent: true, fetch: Fetch::One }
}

/// The statement that [`generic_update`] builds for `value`.
pub open spec fn spec_generic_update<T: Updatable>(value: T) -> StatementView {
    spec_update_statement(
        T::spec_table(),
        T::spec_columns(),
        T::spec_id_column(),
        value.spec_bind_update(),
    )
}

/// An update of `n` columns assigns column `i` (counted from zero) the
/// placeholder `$(i + 1)` and compares the identifier column with
/// `$(n + 1)`, behind all of them. The bind list agrees: it holds `n + 1`
/// values, and the identifier is the last.
pub proof fn lemma_update_placeholders<T: Updatable>(value: T)
    ensures
        assignments(T::spec_columns()).len() == T::spec_columns().len(),
        forall|i: int|
            0 <= i < T::spec_columns().len() ==> #[trigger] assignments(T::spec_columns())[i]
                == T::spec_columns()[i] + " = $"@ + decimal((i + 1) as nat),
        spec_generic_update(value).sql == "UPDATE "@ + T::spec_table() + " SET "@ + join(
            assignments(T::spec_columns()),
            ", "@,
        ) + " WHERE "@ + T::spec_id_column() + " = $"@ + decimal(T::spec_columns().len() + 1)
            + " RETURNING *"@,
        spec_generic_update(value).binds.len() == T::spec_columns().len() + 1,
        spec_generic_update(value).binds[T::spec_columns().len() as int] == value.spec_id(),
{
    value.lemma_bind_update_shape();
}

/// Builds the statement that gives the row named by `value`'s identifier
/// the field values of `value`, and returns the row as stored. It binds
/// one value per column and then the identifier.
pub fn generic_update<T: Updatable>(value: T) -> (statement: Statement)
    ensures
        statement@ == spec_generic_update(value),
        statement@.binds.len() == T::spec_columns().len() + 1,
        statement@.binds.last() == value.spec_id(),
{
    proof {
        lemma_update_placeholders(value);
    }
    update_statement(T::table(), T::columns(), T::id_column(), value.bind_update())
}

/// `DELETE FROM <table> WHERE <id_column> = $1 RETURNING *`.
pub open spec fn delete_sql(table: Seq<char>, id_column: Seq<char>) -> Seq<char> {
    "DELETE FROM "@ + table + " WHERE "@ + id_column + " = $1 RETURNING *"@
}

/// The statement that deletes the row named by `id` and returns it.
pub open spec fn spec_delete_statement(
    table: Seq<char>,
    id_column: Seq<char>,
    id: BindValueView,
) -> StatementView {
    StatementView {
        sql: delete_sql(table, id_column),
        binds: seq![id],
        persistent: true,
        fetch: Fetch::One,
    }
}

/// Builds the statement that deletes the row whose `id_column` equals
/// `id` and returns the row as it was.
pub fn delete_statement(table: &str, id_column: &str, id: BindValue) -> (statement: Statement)
    ensures
        statement@ == spec_delete_statement(table@, id_column@, id@),
{
    let mut query = String::from_str("DELETE FROM ");
    query.append(table);
    query.append(" WHERE ");
    query.append(id_column);
    query.append(" = $1 RETURNING *");
    let mut binds: Vec<BindValue> = Vec::new();
    binds.push(id);
    assert(binds.deep_view() =~= seq![id@]);
    Statement { sql: query, binds, persistent: true, fetch: Fetch::One }
}

/// The statement that [`generic_delete`] builds for `id`.
pub open spec fn spec_generic_delete<T: Deletable>(id: BindValueView) -> StatementView {
    spec_delete_statement(T::spec_table(), T::spec_id_column(), id)
}

/// Builds the statement that deletes the row of `T` named by `id` and
/// returns the row as it was.
pub fn generic_delete<T: Deletable>(id: BindValue) -> (statement: Statement)
    ensures
        statement@ == spec_generic_delete::<T>(id@),
{
    delete_statement(T::table(), T::id_column(), id)
}

} // verus!
