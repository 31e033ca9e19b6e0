use restaurant::meals_catalog::MealCatalog;
use restaurant::order::Order;
use restaurant::storage::OrderStore;

#[test]
fn test_add_order() {
    let catalog = MealCatalog::standard();
    let storage = &mut OrderStore::new();

    let meal = catalog.get(3).unwrap();

    let order_id = storage.add_order(Order::new(2, meal, 1_000)).id;
    let order_id_2 = storage.add_order(Order::new(2, meal, 1_001)).id;
    let order_id_3 = storage.add_order(Order::new(1, meal, 1_002)).id;

    assert_ne!(order_id, order_id_2);
    assert_ne!(order_id_2, order_id_3);
}

#[test]
fn storage_test_get_order() {
    let catalog = MealCatalog::standard();
    let storage = &mut OrderStore::new();

    assert!(storage.get_order(1).is_none());

    let meal = catalog.get(3).unwrap();
    let order_id = storage.add_order(Order::new(2, meal, 1_000)).id;
    let order = storage.get_order(order_id).unwrap();

    assert_eq!(order, Order::new(2, meal, 5_000));
}

#[test]
fn storage_test_delete_order() {
    let catalog = MealCatalog::standard();
    let storage = &mut OrderStore::new();

    // Delete non-existing order.
    assert!(!storage.delete_order(1, 1_500));

    let meal = catalog.get(3).unwrap();
    let order_id = storage.add_order(Order::new(2, meal, 1_000)).id;
    assert!(storage.delete_order(order_id, 2_000));

    assert!(storage.get_order(order_id).is_none());
}

#[test]
fn storage_test_get_orders_for_table() {
    let catalog = MealCatalog::standard();
    let storage = &mut OrderStore::new();

    assert!(storage.get_orders_for_table(1).is_empty());

    storage.add_order(Order::new(1, catalog.get(3).unwrap(), 1_000));
    storage.add_order(Order::new(1, catalog.get(3).unwrap(), 1_001));
    storage.add_order(Order::new(1, catalog.get(4).unwrap(), 1_002));
    storage.add_order(Order::new(2, catalog.get(3).unwrap(), 1_003));

    let orders = storage.get_orders_for_table(1);
    assert_eq!(3, orders.len());
    assert!(orders.iter().all(|order| order.table_id == 1));
}

#[test]
fn identifiers_start_at_one_and_ascend() {
    let catalog = MealCatalog::standard();
    let storage = &mut OrderStore::new();
    let meal = catalog.get(0).unwrap();

    assert_eq!(1, storage.add_order(Order::new(5, meal, 10)).id);
    assert_eq!(2, storage.add_order(Order::new(5, meal, 11)).id);
    assert_eq!(3, storage.add_order(Order::new(6, meal, 12)).id);
    assert_eq!(3, storage.order_count());
}

#[test]
fn meal_query_filters_by_meal_too() {
    let catalog = MealCatalog::standard();
    let storage = &mut OrderStore::new();

    storage.add_order(Order::new(1, catalog.get(2).unwrap(), 1_000));
    storage.add_order(Order::new(1, catalog.get(3).unwrap(), 1_001));
    storage.add_order(Order::new(1, catalog.get(2).unwrap(), 1_002));
    storage.add_order(Order::new(2, catalog.get(2).unwrap(), 1_003));

    let orders = storage.get_meal_orders_for_table(1, 2);
    assert_eq!(2, orders.len());
    assert!(orders.iter().all(|order| order.table_id == 1 && order.meal_id == 2));
    assert!(orders[0].id < orders[1].id);
}
