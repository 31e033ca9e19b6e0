use restaurant::entities::Table;
use restaurant::meals_catalog::MealCatalog;
use restaurant::order::Order;
use restaurant::simulation::{ServeAction, TableState};
use restaurant::storage::OrderStore;

fn stored(store: &mut OrderStore, catalog: &MealCatalog, table_id: u32, meal_id: u32) -> Order {
    store.add_order(Order::new(table_id, catalog.get(meal_id).unwrap(), 1_000))
}

#[test]
fn table_gathers_and_finds_orders() {
    let catalog = MealCatalog::standard();
    let store = &mut OrderStore::new();

    let a = stored(store, &catalog, 1, 2);
    let b = stored(store, &catalog, 1, 3);
    let c = stored(store, &catalog, 1, 2);

    let table = Table::new(1).add_order(a).add_orders(vec![b, c]);

    assert_eq!(1, table.table_id);
    assert_eq!(3, table.orders.len());
    assert_eq!(b.id, table.get_order(b.id).unwrap().id);
    assert!(table.get_order(999).is_none());

    let omelettes = table.get_meal_orders(2);
    assert_eq!(2, omelettes.len());
    assert_eq!(a.id, omelettes[0].id);
    assert_eq!(c.id, omelettes[1].id);
}

#[test]
fn table_delete_drops_exactly_the_named_order() {
    let catalog = MealCatalog::standard();
    let store = &mut OrderStore::new();

    let a = stored(store, &catalog, 2, 0);
    let b = stored(store, &catalog, 2, 1);

    let table = Table::new(2).add_orders(vec![a, b]).delete_order(a.id);

    assert_eq!(1, table.orders.len());
    assert_eq!(b.id, table.orders[0].id);
    assert!(table.get_order(a.id).is_none());
}

#[test]
fn table_lifecycle_advances_as_drawn() {
    assert_eq!(TableState::Ordering, TableState::Empty.advance(true, false));
    assert_eq!(TableState::Empty, TableState::Empty.advance(false, true));
    assert_eq!(TableState::Ordering, TableState::Ordering.advance(true, false));
    assert_eq!(TableState::Eating, TableState::Ordering.advance(false, true));
    assert_eq!(TableState::Ordering, TableState::Eating.advance(true, false));
    assert_eq!(TableState::Eating, TableState::Eating.advance(false, true));
    assert_eq!(TableState::Complete, TableState::Eating.advance(false, false));
    assert_eq!(TableState::Empty, TableState::Complete.advance(true, true));
    assert_eq!(TableState::Empty, TableState::Complete.advance(false, false));
}

#[test]
fn serving_depends_on_the_table_state_alone() {
    assert_eq!(ServeAction::NoAction, TableState::Empty.serve_action());
    assert_eq!(ServeAction::PlaceOrder, TableState::Ordering.serve_action());
    assert_eq!(ServeAction::NoAction, TableState::Eating.serve_action());
    assert_eq!(ServeAction::ClearTable, TableState::Complete.serve_action());
}
