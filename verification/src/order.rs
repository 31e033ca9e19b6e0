//! The order entity: one meal request tied to a table, with its creation
//! and expected-ready timestamps.

use vstd::prelude::*;

verus! {

use crate::meals_catalog::MealInfo;

pub type TableId = u32;

pub type OrderId = u32;

pub type MealId = u32;

/// A point in time, in seconds since the Unix epoch.
pub type Timestamp = i64;

/// A single order.  `id` is assigned by the store on insertion; until then
/// it holds the sentinel `OrderId::MAX`.  `ready_at` always lies exactly
/// the meal's cooking duration after `added_at`.
#[derive(Debug, Clone, Copy)]
pub struct Order {
    pub id: OrderId,
    pub table_id: TableId,
    pub meal_id: MealId,
    pub added_at: Timestamp,
    pub ready_at: Timestamp,
}

impl Order {
    /// Builds a fresh, not-yet-stored order for `table_id` from a catalog
    /// entry, at the clock reading `now`.  A pure function of its
    /// arguments: the identifier stays at its sentinel until the store
    /// accepts the order.
    pub fn new(table_id: TableId, meal: &MealInfo, now: Timestamp) -> (r: Order)
        requires
            i64::MIN <= now + meal.cooking_time <= i64::MAX,
        ensures
            r.id == OrderId::MAX,
            r.table_id == table_id,
            r.meal_id == meal.id,
            r.added_at == now,
            r.ready_at == now + meal.cooking_time,
    {
        Order {
            id: OrderId::MAX,
            table_id,
            meal_id: meal.id,
            added_at: now,
            ready_at: now + meal.cooking_time,
        }
    }
}

/// Business equality: two orders stand for the same request when they name
/// the same meal at the same table, whatever their identity metadata.
impl PartialEq for Order {
    fn eq(&self, other: &Order) -> (r: bool) {
        self.table_id == other.table_id && self.meal_id == other.meal_id
    }
}

impl vstd::std_specs::cmp::PartialEqSpecImpl for Order {
    open spec fn obeys_eq_spec() -> bool {
        true
    }

    open spec fn eq_spec(&self, other: &Order) -> bool {
        self.table_id == other.table_id && self.meal_id == other.meal_id
    }
}

impl Eq for Order {

}

} // verus!
