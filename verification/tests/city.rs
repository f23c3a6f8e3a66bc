use city_api::controllers::city_controller::{
    create_city, create_city_reply, delete_city, delete_city_reply, list_cities,
    list_cities_reply, reply, update_city, update_city_reply, update_failure, Envelope, Reply,
    CREATED, INTERNAL_SERVER_ERROR, NOT_FOUND, OK,
};
use city_api::models::city::City;
use city_api::repositories::bind_value::BindValue;
use city_api::repositories::deletable::Deletable;
use city_api::repositories::insertable::Insertable;
use city_api::repositories::listable::{FilterOp, Listable};
use city_api::repositories::updatable::Updatable;
use city_api::requests::request_city::CityRequest;
use city_api::resources::city_resource::CityResource;
use city_api::services::statement::Fetch;

fn lima() -> City {
    City { id: 3, name: "Lima".to_string(), region: "Costa".to_string() }
}

fn request() -> CityRequest {
    CityRequest { name: "Lima".to_string(), region: "Lima".to_string() }
}

#[test]
fn city_metadata() {
    assert_eq!(<City as Insertable>::table(), "cities");
    assert_eq!(<City as Insertable>::columns(), ["name", "region"]);
    assert_eq!(<City as Updatable>::table(), "cities");
    assert_eq!(<City as Updatable>::columns(), ["name", "region"]);
    assert_eq!(<City as Updatable>::id_column(), "id");
    assert_eq!(<City as Deletable>::table(), "cities");
    assert_eq!(<City as Deletable>::id_column(), "id");
    assert_eq!(<CityResource as Listable>::table(), "cities");
    assert_eq!(<CityResource as Listable>::columns(), ["id", "name", "region"]);
}

#[test]
fn update_columns_leave_the_identifier_out() {
    let id = <City as Updatable>::id_column();
    assert!(!<City as Updatable>::columns().contains(&id));
    assert!(!<City as Insertable>::columns().contains(&id));
}

#[test]
fn city_binds_fields_in_column_order() {
    assert_eq!(
        lima().bind(),
        vec![BindValue::Text("Lima".to_string()), BindValue::Text("Costa".to_string())]
    );
    assert_eq!(lima().bind().len(), <City as Insertable>::columns().len());
}

#[test]
fn city_binds_the_identifier_last_for_an_update() {
    let values = lima().bind_update();
    assert_eq!(
        values,
        vec![
            BindValue::Text("Lima".to_string()),
            BindValue::Text("Costa".to_string()),
            BindValue::Integer(3),
        ]
    );
    assert_eq!(values.len(), <City as Updatable>::columns().len() + 1);
}

#[test]
fn default_resource_asks_for_everything() {
    let resource = CityResource::default();
    assert_eq!(resource, CityResource { name: None, region: None, page: None, per_page: None });
    assert!(resource.filters().is_empty());
    assert_eq!(resource.page(), None);
    assert_eq!(resource.per_page(), None);
}

#[test]
fn resource_filters_name_before_region() {
    let resource = CityResource {
        name: Some("li".to_string()),
        region: Some("Costa".to_string()),
        page: Some(2),
        per_page: Some(5),
    };
    assert_eq!(
        resource.filters(),
        vec![
            ("name", FilterOp::ILike("li".to_string())),
            ("region", FilterOp::Eq("Costa".to_string())),
        ]
    );
    assert_eq!(resource.page(), Some(2));
    assert_eq!(resource.per_page(), Some(5));
}

#[test]
fn resource_filters_one_at_a_time() {
    let by_name =
        CityResource { name: Some("x".to_string()), region: None, page: None, per_page: None };
    assert_eq!(by_name.filters(), vec![("name", FilterOp::ILike("x".to_string()))]);
    let by_region =
        CityResource { name: None, region: Some("y".to_string()), page: None, per_page: None };
    assert_eq!(by_region.filters(), vec![("region", FilterOp::Eq("y".to_string()))]);
}

#[test]
fn listing_orders_by_identifier_descending() {
    let statement = list_cities(CityResource::default());
    assert_eq!(statement.sql, "SELECT id, name, region FROM cities ORDER BY id DESC");
    assert!(statement.binds.is_empty());
    assert!(!statement.persistent);
    assert_eq!(statement.fetch, Fetch::All);
}

#[test]
fn listing_with_filters_and_page() {
    let statement = list_cities(CityResource {
        name: Some("ar".to_string()),
        region: None,
        page: Some(2),
        per_page: Some(10),
    });
    assert_eq!(
        statement.sql,
        "SELECT id, name, region FROM cities WHERE name ILIKE $1 ORDER BY id DESC \
         LIMIT 10 OFFSET 10"
    );
    assert_eq!(statement.binds, vec![BindValue::Text("%ar%".to_string())]);
}

#[test]
fn creation_inserts_under_identifier_zero() {
    let statement = create_city(request());
    assert_eq!(statement.sql, "INSERT INTO cities (name, region) VALUES ($1, $2) RETURNING *");
    assert_eq!(
        statement.binds,
        vec![BindValue::Text("Lima".to_string()), BindValue::Text("Lima".to_string())]
    );
    assert_eq!(statement.fetch, Fetch::One);
}

#[test]
fn update_targets_the_given_identifier() {
    let statement = update_city(12, request());
    assert_eq!(
        statement.sql,
        "UPDATE cities SET name = $1, region = $2 WHERE id = $3 RETURNING *"
    );
    assert_eq!(
        statement.binds,
        vec![
            BindValue::Text("Lima".to_string()),
            BindValue::Text("Lima".to_string()),
            BindValue::Integer(12),
        ]
    );
}

#[test]
fn deletion_targets_the_given_identifier() {
    let statement = delete_city(-4);
    assert_eq!(statement.sql, "DELETE FROM cities WHERE id = $1 RETURNING *");
    assert_eq!(statement.binds, vec![BindValue::Integer(-4)]);
    assert_eq!(statement.fetch, Fetch::One);
}

#[test]
fn status_codes() {
    assert_eq!(OK, 200);
    assert_eq!(CREATED, 201);
    assert_eq!(NOT_FOUND, 404);
    assert_eq!(INTERNAL_SERVER_ERROR, 500);
}

fn no_row() -> sqlx::Error {
    sqlx::Error::RowNotFound
}

const NO_ROW: &str = "no rows returned by a query that expected to return at least one row";

#[test]
fn reply_keeps_data_and_message() {
    assert_eq!(reply(Ok(5), 200, 500), Reply { status: 200, body: Envelope::Success(5) });
    assert_eq!(
        reply::<i32>(Err("broken".to_string()), 200, 500),
        Reply { status: 500, body: Envelope::Error("broken".to_string()) }
    );
    assert_eq!(
        reply::<i32>(Err(String::new()), 201, 404),
        Reply { status: 404, body: Envelope::Error(String::new()) }
    );
}

#[test]
fn listing_replies() {
    assert_eq!(
        list_cities_reply(Ok(vec![lima()])),
        Reply { status: 200, body: Envelope::Success(vec![lima()]) }
    );
    assert_eq!(
        list_cities_reply(Ok(Vec::new())),
        Reply { status: 200, body: Envelope::Success(Vec::new()) }
    );
    assert_eq!(
        list_cities_reply(Err(sqlx::Error::PoolTimedOut)),
        Reply {
            status: 500,
            body: Envelope::Error(sqlx::Error::PoolTimedOut.to_string()),
        }
    );
}

#[test]
fn creation_replies() {
    assert_eq!(
        create_city_reply(Ok(lima())),
        Reply { status: 201, body: Envelope::Success(lima()) }
    );
    assert_eq!(
        create_city_reply(Err(sqlx::Error::Protocol("duplicate key".to_string()))),
        Reply {
            status: 500,
            body: Envelope::Error(
                sqlx::Error::Protocol("duplicate key".to_string()).to_string()
            ),
        }
    );
}

#[test]
fn update_replies() {
    assert_eq!(
        update_city_reply(Ok(lima())),
        Reply { status: 200, body: Envelope::Success(lima()) }
    );
    assert_eq!(
        update_city_reply(Err(no_row())),
        Reply { status: 404, body: Envelope::Error(NO_ROW.to_string()) }
    );
    assert_eq!(
        update_city_reply(Err(sqlx::Error::PoolTimedOut)),
        Reply {
            status: 500,
            body: Envelope::Error(sqlx::Error::PoolTimedOut.to_string()),
        }
    );
}

#[test]
fn only_a_missing_row_makes_an_update_not_found() {
    let others = [
        sqlx::Error::PoolClosed,
        sqlx::Error::WorkerCrashed,
        sqlx::Error::Protocol("no rows".to_string()),
        sqlx::Error::ColumnNotFound("id".to_string()),
    ];
    for error in others {
        let message = error.to_string();
        assert_eq!(
            update_city_reply(Err(error)),
            Reply { status: 500, body: Envelope::Error(message) }
        );
    }
    assert_eq!(update_city_reply(Err(no_row())).status, 404);
}

#[test]
fn update_failures() {
    assert_eq!(
        update_failure(true, "gone".to_string()),
        Reply { status: 404, body: Envelope::Error("gone".to_string()) }
    );
    assert_eq!(
        update_failure(false, "broken".to_string()),
        Reply { status: 500, body: Envelope::Error("broken".to_string()) }
    );
    assert_eq!(
        update_failure(true, String::new()),
        Reply { status: 404, body: Envelope::Error(String::new()) }
    );
}

#[test]
fn deletion_replies() {
    assert_eq!(
        delete_city_reply(Ok(lima())),
        Reply { status: 200, body: Envelope::Success(lima()) }
    );
    assert_eq!(
        delete_city_reply(Err(no_row())),
        Reply { status: 404, body: Envelope::Error(NO_ROW.to_string()) }
    );
}

#[test]
fn every_failure_of_a_deletion_is_answered_alike() {
    for error in [sqlx::Error::PoolClosed, sqlx::Error::WorkerCrashed, no_row()] {
        let message = error.to_string();
        assert_eq!(
            delete_city_reply(Err(error)),
            Reply { status: 404, body: Envelope::Error(message) }
        );
    }
}

#[test]
fn envelope_status_words() {
    assert_eq!(Envelope::Success(1).status(), "success");
    assert_eq!(Envelope::<i32>::Error("x".to_string()).status(), "error");
    assert_eq!(delete_city_reply(Err(no_row())).body.status(), "error");
    assert_eq!(delete_city_reply(Ok(lima())).body.status(), "success");
}
