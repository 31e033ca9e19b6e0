//! The decision logic of the request layer: resolve a meal against the
//! catalog, build the order, delegate to the store, and map the outcome to
//! the error taxonomy.  The HTTP framing around these functions carries no
//! logic of its own.

use vstd::prelude::*;

verus! {

use crate::clock::now_seconds;
use crate::meals_catalog::{catalog_lookup, MealCatalog, MAX_COOKING_SECONDS};
use crate::order::{MealId, Order, OrderId, TableId, Timestamp};
use crate::storage::{delete_effect, OrderStore, StoredOrder};

/// Why a request was refused.  `InvalidInput` names an unknown meal and is
/// caught before the store is touched; `NotFound` names an identifier with
/// no live order; `StorageFailure` stands for a backing medium that became
/// unreachable, which the in-memory store itself never reports.
#[derive(Debug, Clone, Copy, PartialEq, Eq, Structural)]
pub enum OrderError {
    InvalidInput,
    NotFound,
    StorageFailure,
}

/// Serves a request to put one meal on a table's tab, taken at the clock
/// reading `now`: an unknown meal is refused before the store is touched;
/// a known one becomes a freshly identified order whose expected-ready
/// time lies exactly its cooking duration after `now`.
pub fn put_order(
    catalog: &MealCatalog,
    store: &mut OrderStore,
    table_id: TableId,
    meal_id: MealId,
    now: Timestamp,
) -> (r: Result<Order, OrderError>)
    requires
        catalog.wf(),
        old(store).wf(),
        now <= i64::MAX - MAX_COOKING_SECONDS,
        old(store)@.len() + 1 < u32::MAX,
    ensures
        final(store).wf(),
        match catalog_lookup(catalog@, meal_id) {
            Some(m) => {
                &&& r matches Ok(o)
                &&& o.table_id == table_id
                &&& o.meal_id == meal_id
                &&& o.added_at == now
                &&& o.ready_at == now + m.cooking_time
                &&& o.id == old(store).next_id()
                &&& final(store)@ == old(store)@.push(
                    (StoredOrder { order: o, deleted_at: None }),
                )
            },
            None => {
                &&& r == Err::<Order, OrderError>(OrderError::InvalidInput)
                &&& final(store)@ == old(store)@
            },
        },
{
    match catalog.get(meal_id) {
        Some(meal) => {
            proof {
                catalog.lemma_lookup_wf_bounds(meal_id);
            }
            let order = Order::new(table_id, meal, now);
            let accepted = store.add_order(order);
            Ok(accepted)
        },
        None => Err(OrderError::InvalidInput),
    }
}

/// Serves a lookup by order identifier: the live order, or `NotFound`
/// both for an identifier never issued and for a deleted order.
pub fn get_order(store: &OrderStore, order_id: OrderId) -> (r: Result<Order, OrderError>)
    requires
        store.wf(),
    ensures
        match store.spec_get(order_id) {
            Some(o) => r == Ok::<Order, OrderError>(o),
            None => r == Err::<Order, OrderError>(OrderError::NotFound),
        },
{
    match store.get_order(order_id) {
        Some(order) => Ok(order),
        None => Err(OrderError::NotFound),
    }
}

/// Serves a deletion request, stamping the order with `now`: success
/// exactly when a live order carried the identifier, `NotFound` and an
/// untouched store otherwise.
pub fn delete_order(store: &mut OrderStore, order_id: OrderId, now: Timestamp) -> (r: Result<
    (),
    OrderError,
>)
    requires
        old(store).wf(),
    ensures
        final(store).wf(),
        old(store).is_live(order_id) ==> r == Ok::<(), OrderError>(()) && delete_effect(
            *old(store),
            *final(store),
            order_id,
            now,
            true,
        ),
        !old(store).is_live(order_id) ==> r == Err::<(), OrderError>(OrderError::NotFound)
            && final(store)@ == old(store)@,
{
    if store.delete_order(order_id, now) {
        Ok(())
    } else {
        Err(OrderError::NotFound)
    }
}

/// Serves a put request at the current wall-clock time.  The clock reading
/// is out of the library's hands, so the contract states what holds of
/// every outcome: refusals leave the store untouched, and an accepted
/// order is stored as handed back, ready exactly its meal's cooking
/// duration after it was added.  Nothing is returned at all only when the
/// clock reading was unusable or the store has run out of identifiers.
pub fn put_order_now(
    catalog: &MealCatalog,
    store: &mut OrderStore,
    table_id: TableId,
    meal_id: MealId,
) -> (r: Option<Result<Order, OrderError>>)
    requires
        catalog.wf(),
        old(store).wf(),
    ensures
        final(store).wf(),
        old(store)@.len() + 1 >= u32::MAX ==> r is None,
        match r {
            Some(res) => match catalog_lookup(catalog@, meal_id) {
                Some(m) => {
                    &&& res matches Ok(o)
                    &&& o.table_id == table_id
                    &&& o.meal_id == meal_id
                    &&& o.ready_at == o.added_at + m.cooking_time
                    &&& o.id == old(store).next_id()
                    &&& final(store)@ == old(store)@.push(
                        (StoredOrder { order: o, deleted_at: None }),
                    )
                },
                None => {
                    &&& res == Err::<Order, OrderError>(OrderError::InvalidInput)
                    &&& final(store)@ == old(store)@
                },
            },
            None => final(store)@ == old(store)@,
        },
{
    let now = now_seconds();
    if now < 0 || now > i64::MAX - MAX_COOKING_SECONDS {
        return None;
    }
    if store.order_count() >= (u32::MAX - 1) as usize {
        return None;
    }
    Some(put_order(catalog, store, table_id, meal_id, now))
}

/// Serves a deletion request at the current wall-clock time.  Whatever
/// the clock read, success is reported exactly when a live order carried
/// the identifier, and the store changes in no other way than marking
/// that one order deleted.
pub fn delete_order_now(store: &mut OrderStore, order_id: OrderId) -> (r: Result<
    (),
    OrderError,
>)
    requires
        old(store).wf(),
    ensures
        final(store).wf(),
        old(store).is_live(order_id) ==> r == Ok::<(), OrderError>(()) && (exists|t: Timestamp|
            delete_effect(*old(store), *final(store), order_id, t, true)),
        !old(store).is_live(order_id) ==> r == Err::<(), OrderError>(OrderError::NotFound)
            && final(store)@ == old(store)@,
{
    let now = now_seconds();
    let r = delete_order(store, order_id, now);
    proof {
        if old(store).is_live(order_id) {
            assert(delete_effect(*old(store), *final(store), order_id, now, true));
        }
    }
    r
}

/// Law: placing a valid order and then fetching the identifier it was
/// assigned yields that very order — for the requested table and meal,
/// expected ready exactly the catalog's cooking duration after it was
/// added.
pub proof fn lemma_put_then_get(
    catalog: MealCatalog,
    pre: OrderStore,
    post: OrderStore,
    table_id: TableId,
    meal_id: MealId,
    o: Order,
)
    requires
        catalog.wf(),
        pre.wf(),
        catalog_lookup(catalog@, meal_id) is Some,
        o.table_id == table_id,
        o.meal_id == meal_id,
        o.ready_at == o.added_at + catalog_lookup(catalog@, meal_id).unwrap().cooking_time,
        o.id == pre.next_id(),
        post@ == pre@.push((StoredOrder { order: o, deleted_at: None })),
    ensures
        post.spec_get(o.id) == Some(o),
        o.ready_at - o.added_at == catalog_lookup(catalog@, meal_id).unwrap().cooking_time,
{
    crate::storage::lemma_get_after_add(pre, post, o, o);
}

} // verus!
