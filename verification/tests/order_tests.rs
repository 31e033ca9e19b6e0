use restaurant::meals_catalog::MealCatalog;
use restaurant::order::Order;

#[test]
fn order_test_new_order() {
    let catalog = MealCatalog::standard();
    let meal = catalog.get(2).unwrap();
    let order = Order::new(1, meal, 500);

    assert_eq!(1, order.table_id);
    assert_eq!(2, order.meal_id);
    assert_eq!(meal.cooking_time, order.ready_at - order.added_at);
}

#[test]
fn entities_test_new_order() {
    let catalog = MealCatalog::standard();
    let meal = catalog.get(2).unwrap();
    let order = Order::new(1, meal, 9_000);

    assert_eq!(1, order.table_id);
    assert_eq!(2, order.meal_id);
    assert_eq!(meal.cooking_time, order.ready_at - order.added_at);
}

#[test]
fn new_order_keeps_sentinel_id() {
    let catalog = MealCatalog::standard();
    let meal = catalog.get(0).unwrap();
    let order = Order::new(4, meal, 0);

    assert_eq!(u32::MAX, order.id);
    assert_eq!(0, order.added_at);
    assert_eq!(60, order.ready_at);
}

#[test]
fn business_equality_ignores_identity_metadata() {
    let catalog = MealCatalog::standard();
    let meal = catalog.get(3).unwrap();
    let a = Order::new(2, meal, 1_000);
    let b = Order::new(2, meal, 77_777);
    let c = Order::new(3, meal, 1_000);

    assert_eq!(a, b);
    assert_ne!(a, c);
}
