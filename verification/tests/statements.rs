use city_api::models::city::City;
use city_api::repositories::bind_value::BindValue;
use city_api::repositories::listable::FilterOp;
use city_api::resources::city_resource::CityResource;
use city_api::services::generic_query::{
    delete_statement, generic_delete, generic_insert, generic_list, generic_update,
    insert_statement, list_statement, update_statement,
};
use city_api::services::statement::{Fetch, Statement};

fn text(s: &str) -> BindValue {
    BindValue::Text(s.to_string())
}

fn no_filter() -> CityResource {
    CityResource { name: None, region: None, page: None, per_page: None }
}

const WIDE_COLUMNS: &[&str] =
    &["c1", "c2", "c3", "c4", "c5", "c6", "c7", "c8", "c9", "c10", "c11", "c12"];

fn wide_values() -> Vec<BindValue> {
    (1..=12).map(|i| BindValue::Text(format!("f{}", i))).collect()
}

/// `k` filters that alternate between an equality on `a` and a partial
/// match on `b`, with the values `v0`, `v1`, ...
fn many_filters(k: usize) -> Vec<(&'static str, FilterOp)> {
    let mut filters = Vec::new();
    for i in 0..k {
        if i % 2 == 0 {
            filters.push(("a", FilterOp::Eq(format!("v{}", i))));
        } else {
            filters.push(("b", FilterOp::ILike(format!("v{}", i))));
        }
    }
    filters
}

fn list_many(k: usize) -> Statement {
    list_statement("t", &["a"], &many_filters(k), None, None, None)
}

#[test]
fn insert_city_statement() {
    let city = City { id: 0, name: "Lima".to_string(), region: "Lima".to_string() };
    let statement = generic_insert(city);
    assert_eq!(statement.sql, "INSERT INTO cities (name, region) VALUES ($1, $2) RETURNING *");
    assert_eq!(statement.binds, vec![text("Lima"), text("Lima")]);
    assert!(statement.persistent);
    assert_eq!(statement.fetch, Fetch::One);
}

#[test]
fn insert_does_not_bind_the_identifier() {
    let city = City { id: 99, name: "Ica".to_string(), region: "Ica".to_string() };
    let statement = generic_insert(city);
    assert_eq!(statement.binds, vec![text("Ica"), text("Ica")]);
    assert!(!statement.sql.contains("id"));
}

#[test]
fn insert_wide_numbers_placeholders_past_nine() {
    let statement = insert_statement("wide", WIDE_COLUMNS, wide_values());
    assert_eq!(
        statement.sql,
        "INSERT INTO wide (c1, c2, c3, c4, c5, c6, c7, c8, c9, c10, c11, c12) \
         VALUES ($1, $2, $3, $4, $5, $6, $7, $8, $9, $10, $11, $12) RETURNING *"
    );
    assert_eq!(statement.binds.len(), 12);
    assert_eq!(statement.binds[0], text("f1"));
    assert_eq!(statement.binds[11], text("f12"));
}

#[test]
fn update_city_statement() {
    let city = City { id: 42, name: "Cusco".to_string(), region: "Cusco".to_string() };
    let statement = generic_update(city);
    assert_eq!(
        statement.sql,
        "UPDATE cities SET name = $1, region = $2 WHERE id = $3 RETURNING *"
    );
    assert_eq!(statement.binds, vec![text("Cusco"), text("Cusco"), BindValue::Integer(42)]);
    assert!(statement.persistent);
    assert_eq!(statement.fetch, Fetch::One);
}

#[test]
fn update_places_the_identifier_behind_all_columns() {
    let mut values = wide_values();
    values.push(BindValue::Integer(5));
    let statement = update_statement("wide", WIDE_COLUMNS, "wide_id", values);
    assert_eq!(
        statement.sql,
        "UPDATE wide SET c1 = $1, c2 = $2, c3 = $3, c4 = $4, c5 = $5, c6 = $6, c7 = $7, \
         c8 = $8, c9 = $9, c10 = $10, c11 = $11, c12 = $12 WHERE wide_id = $13 RETURNING *"
    );
    assert_eq!(statement.binds.len(), 13);
    assert_eq!(statement.binds[12], BindValue::Integer(5));
}

#[test]
fn delete_city_statement() {
    let statement = generic_delete::<City>(BindValue::Integer(7));
    assert_eq!(statement.sql, "DELETE FROM cities WHERE id = $1 RETURNING *");
    assert_eq!(statement.binds, vec![BindValue::Integer(7)]);
    assert!(statement.persistent);
    assert_eq!(statement.fetch, Fetch::One);
}

#[test]
fn delete_by_text_identifier() {
    let statement = delete_statement("wide", "wide_id", text("abc"));
    assert_eq!(statement.sql, "DELETE FROM wide WHERE wide_id = $1 RETURNING *");
    assert_eq!(statement.binds, vec![text("abc")]);
}

#[test]
fn list_without_filters_has_no_where() {
    let statement = generic_list(no_filter(), None);
    assert_eq!(statement.sql, "SELECT id, name, region FROM cities");
    assert!(!statement.sql.contains("WHERE"));
    assert!(statement.binds.is_empty());
    assert!(!statement.persistent);
    assert_eq!(statement.fetch, Fetch::All);
}

#[test]
fn list_without_filters_keeps_order_and_page() {
    let filter = CityResource { name: None, region: None, page: Some(3), per_page: Some(25) };
    let statement = generic_list(filter, Some(("name", "asc")));
    assert_eq!(
        statement.sql,
        "SELECT id, name, region FROM cities ORDER BY name ASC LIMIT 25 OFFSET 50"
    );
    assert!(statement.binds.is_empty());
}

#[test]
fn list_with_one_filter() {
    let filter =
        CityResource { name: None, region: Some("Lima".to_string()), page: None, per_page: None };
    let statement = generic_list(filter, None);
    assert_eq!(statement.sql, "SELECT id, name, region FROM cities WHERE region = $1");
    assert_eq!(statement.binds, vec![text("Lima")]);
}

#[test]
fn list_with_partial_match_only() {
    let filter =
        CityResource { name: Some("li".to_string()), region: None, page: None, per_page: None };
    let statement = generic_list(filter, None);
    assert_eq!(statement.sql, "SELECT id, name, region FROM cities WHERE name ILIKE $1");
    assert_eq!(statement.binds, vec![text("%li%")]);
}

#[test]
fn list_all_filters_and_page() {
    let filter = CityResource {
        name: Some("li".to_string()),
        region: Some("Lima".to_string()),
        page: Some(2),
        per_page: Some(10),
    };
    let statement = generic_list(filter, Some(("id", "desc")));
    assert_eq!(
        statement.sql,
        "SELECT id, name, region FROM cities WHERE name ILIKE $1 AND region = $2 \
         ORDER BY id DESC LIMIT 10 OFFSET 10"
    );
    assert_eq!(statement.binds, vec![text("%li%"), text("Lima")]);
    assert!(!statement.persistent);
    assert_eq!(statement.fetch, Fetch::All);
}

#[test]
fn list_with_k_filters_has_k_predicates_and_k_binds() {
    for k in 1..=12usize {
        let statement = list_many(k);
        assert_eq!(statement.binds.len(), k);
        assert_eq!(statement.sql.matches(" WHERE ").count(), 1);
        assert_eq!(statement.sql.matches(" AND ").count(), k - 1);
        assert_eq!(statement.sql.matches('$').count(), k);
        for i in 0..k {
            let predicate = if i % 2 == 0 {
                format!("a = ${}", i + 1)
            } else {
                format!("b ILIKE ${}", i + 1)
            };
            assert!(statement.sql.contains(&predicate));
            let bound =
                if i % 2 == 0 { format!("v{}", i) } else { format!("%v{}%", i) };
            assert_eq!(statement.binds[i], BindValue::Text(bound));
        }
    }
}

#[test]
fn list_with_eleven_filters_exact_text() {
    let statement = list_many(11);
    assert_eq!(
        statement.sql,
        "SELECT a FROM t WHERE a = $1 AND b ILIKE $2 AND a = $3 AND b ILIKE $4 AND a = $5 \
         AND b ILIKE $6 AND a = $7 AND b ILIKE $8 AND a = $9 AND b ILIKE $10 AND a = $11"
    );
}

#[test]
fn filter_values_never_reach_the_text() {
    let hostile = CityResource {
        name: Some("'; DROP TABLE cities; --".to_string()),
        region: Some("x' OR '1'='1".to_string()),
        page: None,
        per_page: None,
    };
    let plain = CityResource {
        name: Some("a".to_string()),
        region: Some("b".to_string()),
        page: None,
        per_page: None,
    };
    let hostile = generic_list(hostile, None);
    let plain = generic_list(plain, None);
    assert_eq!(hostile.sql, plain.sql);
    assert_eq!(
        hostile.binds,
        vec![text("%'; DROP TABLE cities; --%"), text("x' OR '1'='1")]
    );
}

#[test]
fn list_without_page_has_no_limit() {
    let filter = CityResource { name: None, region: None, page: None, per_page: Some(10) };
    let statement = generic_list(filter, None);
    assert_eq!(statement.sql, "SELECT id, name, region FROM cities");
}

#[test]
fn list_without_page_size_has_no_limit() {
    let filter = CityResource { name: None, region: None, page: Some(4), per_page: None };
    let statement = generic_list(filter, Some(("id", "DESC")));
    assert_eq!(statement.sql, "SELECT id, name, region FROM cities ORDER BY id DESC");
}

#[test]
fn list_with_page_size_zero_is_not_paged() {
    let filter = CityResource { name: None, region: None, page: Some(1), per_page: Some(0) };
    let statement = generic_list(filter, None);
    assert_eq!(statement.sql, "SELECT id, name, region FROM cities");
}

#[test]
fn list_pages_zero_and_one_start_at_the_first_row() {
    for page in [0u32, 1] {
        let filter = CityResource { name: None, region: None, page: Some(page), per_page: Some(10) };
        let statement = generic_list(filter, None);
        assert_eq!(statement.sql, "SELECT id, name, region FROM cities LIMIT 10 OFFSET 0");
    }
}

#[test]
fn list_largest_page_does_not_overflow() {
    let filter = CityResource {
        name: None,
        region: None,
        page: Some(u32::MAX),
        per_page: Some(u32::MAX),
    };
    let statement = generic_list(filter, None);
    assert_eq!(
        statement.sql,
        "SELECT id, name, region FROM cities LIMIT 4294967295 OFFSET 18446744060824649730"
    );
}

#[test]
fn list_direction_is_normalised() {
    for direction in ["DESC", "desc", "Desc", "dEsC"] {
        let statement = generic_list(no_filter(), Some(("id", direction)));
        assert_eq!(statement.sql, "SELECT id, name, region FROM cities ORDER BY id DESC");
    }
    for direction in ["ASC", "asc", "", "descending", "DESC ", " desc", "down", "dësc"] {
        let statement = generic_list(no_filter(), Some(("id", direction)));
        assert_eq!(statement.sql, "SELECT id, name, region FROM cities ORDER BY id ASC");
    }
}

#[test]
fn list_of_a_table_without_columns() {
    let statement = list_statement("t", &[], &[], None, None, None);
    assert_eq!(statement.sql, "SELECT  FROM t");
    assert!(statement.binds.is_empty());
}

#[test]
fn insert_of_a_single_column() {
    let statement = insert_statement("t", &["a"], vec![BindValue::Integer(1)]);
    assert_eq!(statement.sql, "INSERT INTO t (a) VALUES ($1) RETURNING *");
    assert_eq!(statement.binds, vec![BindValue::Integer(1)]);
}

#[test]
fn update_of_a_single_column() {
    let statement =
        update_statement("t", &["a"], "k", vec![text("x"), BindValue::Integer(9)]);
    assert_eq!(statement.sql, "UPDATE t SET a = $1 WHERE k = $2 RETURNING *");
    assert_eq!(statement.binds, vec![text("x"), BindValue::Integer(9)]);
}
