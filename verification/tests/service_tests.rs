use restaurant::meals_catalog::MealCatalog;
use restaurant::service::{delete_order, get_order, put_order, OrderError};
use restaurant::storage::OrderStore;

fn put(catalog: &MealCatalog, store: &mut OrderStore, table_id: u32, meal_id: u32, now: i64) {
    put_order(catalog, store, table_id, meal_id, now).unwrap();
}

#[test]
fn test_put_order() {
    let catalog = MealCatalog::standard();
    let store = &mut OrderStore::new();

    let response = put_order(&catalog, store, 1, 3, 1_000);
    assert!(response.is_ok());

    let order = response.unwrap();
    assert_eq!(1, order.id);
    assert_eq!(1, order.table_id);
    assert_eq!(3, order.meal_id);
}

#[test]
fn test_put_invalid_order() {
    let catalog = MealCatalog::standard();
    let store = &mut OrderStore::new();

    let response = put_order(&catalog, store, 1, 1234, 1_000);
    assert!(response.is_err());
}

#[test]
fn app_test_get_order() {
    let catalog = MealCatalog::standard();
    let store = &mut OrderStore::new();

    put(&catalog, store, 1, 1, 1_000);
    put(&catalog, store, 2, 2, 1_001);

    let response = get_order(store, 2);
    assert!(response.is_ok());

    let order = response.unwrap();
    assert_eq!(2, order.id);
}

#[test]
fn app_test_delete_order() {
    let catalog = MealCatalog::standard();
    let store = &mut OrderStore::new();

    put(&catalog, store, 1, 1, 1_000);
    put(&catalog, store, 2, 2, 1_001);

    let response = delete_order(store, 2, 2_000);
    assert!(response.is_ok());
}

#[test]
fn test_delete_nonexisting_order() {
    let catalog = MealCatalog::standard();
    let store = &mut OrderStore::new();

    put(&catalog, store, 1, 1, 1_000);
    put(&catalog, store, 2, 2, 1_001);

    let response = delete_order(store, 3, 2_000);
    assert_eq!(Err(OrderError::NotFound), response);
}

#[test]
fn test_get_invalid_order() {
    let catalog = MealCatalog::standard();
    let store = &mut OrderStore::new();

    put(&catalog, store, 1, 1, 1_000);

    let response = get_order(store, 2);
    assert_eq!(Err(OrderError::NotFound), response);
}

#[test]
fn app_test_get_orders_for_table() {
    let catalog = MealCatalog::standard();
    let store = &mut OrderStore::new();

    put(&catalog, store, 1, 1, 1_000);
    put(&catalog, store, 1, 1, 1_001);
    put(&catalog, store, 1, 2, 1_002);
    put(&catalog, store, 1, 2, 1_003);
    put(&catalog, store, 1, 3, 1_004);
    put(&catalog, store, 2, 1, 1_005);
    put(&catalog, store, 2, 2, 1_006);
    put(&catalog, store, 2, 3, 1_007);

    let orders = store.get_orders_for_table(1);

    assert_eq!(5, orders.len());
    assert!(orders.iter().all(|order| order.table_id == 1));

    assert_eq!(
        [1, 1, 2, 2, 3],
        orders.iter().map(|order| order.meal_id).collect::<Vec<_>>().as_slice()
    );
}

#[test]
fn unknown_meal_is_refused_before_the_store() {
    let catalog = MealCatalog::standard();
    let store = &mut OrderStore::new();

    let response = put_order(&catalog, store, 1, 1234, 1_000);

    assert_eq!(Err(OrderError::InvalidInput), response);
    assert_eq!(0, store.order_count());
    assert!(store.get_orders_for_table(1).is_empty());
}
