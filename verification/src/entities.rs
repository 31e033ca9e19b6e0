//! The table entity: an in-memory gathering of one table's orders, handy
//! for callers that assemble query results away from the store.

use vstd::prelude::*;

verus! {

use crate::order::{MealId, Order, OrderId, TableId};

/// The first order of `s` carrying `order_id`, if any.
pub open spec fn find_by_id(s: Seq<Order>, order_id: OrderId) -> Option<Order>
    decreases s.len(),
{
    if s.len() == 0 {
        None
    } else if s[0].id == order_id {
        Some(s[0])
    } else {
        find_by_id(s.drop_first(), order_id)
    }
}

/// The orders of `s` naming `meal_id`, in order.
pub open spec fn orders_for_meal(s: Seq<Order>, meal_id: MealId) -> Seq<Order>
    decreases s.len(),
{
    if s.len() == 0 {
        Seq::empty()
    } else if s.last().meal_id == meal_id {
        orders_for_meal(s.drop_last(), meal_id).push(s.last())
    } else {
        orders_for_meal(s.drop_last(), meal_id)
    }
}

/// The orders of `s` not carrying `order_id`, in order.
pub open spec fn without_id(s: Seq<Order>, order_id: OrderId) -> Seq<Order>
    decreases s.len(),
{
    if s.len() == 0 {
        Seq::empty()
    } else if s.last().id != order_id {
        without_id(s.drop_last(), order_id).push(s.last())
    } else {
        without_id(s.drop_last(), order_id)
    }
}

/// A skipped prefix without a matching identifier does not change which
/// order a search finds.
proof fn lemma_find_skip(s: Seq<Order>, order_id: OrderId, i: int)
    requires
        0 <= i <= s.len(),
        forall|j: int| 0 <= j < i ==> s[j].id != order_id,
    ensures
        find_by_id(s, order_id) == find_by_id(s.skip(i), order_id),
    decreases i,
{
    if i > 0 {
        assert(s.skip(1).skip(i - 1) =~= s.skip(i));
        lemma_find_skip(s.skip(1), order_id, i - 1);
        assert(s.drop_first() =~= s.skip(1));
    } else {
        assert(s.skip(0) =~= s);
    }
}

/// One table and the orders gathered for it, in the order they were
/// added.
#[derive(Debug)]
pub struct Table {
    pub table_id: TableId,
    pub orders: Vec<Order>,
}

impl Table {
    /// A table with no orders yet.
    pub fn new(id: TableId) -> (r: Self)
        ensures
            r.table_id == id,
            r.orders@ =~= Seq::<Order>::empty(),
    {
        Table { table_id: id, orders: Vec::new() }
    }

    /// Appends one order, builder style.
    pub fn add_order(self, order: Order) -> (r: Self)
        ensures
            r.table_id == self.table_id,
            r.orders@ == self.orders@.push(order),
    {
        let mut s = self;
        s.orders.push(order);
        s
    }

    /// Appends a batch of orders, keeping their order.
    pub fn add_orders(self, orders: Vec<Order>) -> (r: Self)
        ensures
            r.table_id == self.table_id,
            r.orders@ == self.orders@ + orders@,
    {
        let mut s = self;
        let mut rest = orders;
        s.orders.append(&mut rest);
        s
    }

    /// The first gathered order carrying `order_id`, if any.
    pub fn get_order(&self, order_id: OrderId) -> (r: Option<Order>)
        ensures
            r == find_by_id(self.orders@, order_id),
    {
        let n = self.orders.len();
        let mut i: usize = 0;
        while i < n
            invariant
                n == self.orders.len(),
                0 <= i <= n,
                forall|j: int| 0 <= j < i ==> self.orders@[j].id != order_id,
            decreases n - i,
        {
            if self.orders[i].id == order_id {
                proof {
                    lemma_find_skip(self.orders@, order_id, i as int);
                    assert(self.orders@.skip(i as int)[0] == self.orders@[i as int]);
                }
                return Some(self.orders[i]);
            }
            i = i + 1;
        }
        proof {
            lemma_find_skip(self.orders@, order_id, n as int);
            assert(self.orders@.skip(n as int) =~= Seq::<Order>::empty());
        }
        None
    }

    /// All gathered orders naming `meal_id`, in the order they were
    /// added.
    pub fn get_meal_orders(&self, meal_id: MealId) -> (r: Vec<Order>)
        ensures
            r@ == orders_for_meal(self.orders@, meal_id),
    {
        let n = self.orders.len();
        let mut out: Vec<Order> = Vec::new();
        let mut i: usize = 0;
        while i < n
            invariant
                n == self.orders.len(),
                0 <= i <= n,
                out@ == orders_for_meal(self.orders@.take(i as int), meal_id),
            decreases n - i,
        {
            proof {
                assert(self.orders@.take(i + 1).drop_last() =~= self.orders@.take(i as int));
                assert(self.orders@.take(i + 1).last() == self.orders@[i as int]);
            }
            if self.orders[i].meal_id == meal_id {
                out.push(self.orders[i]);
            }
            i = i + 1;
        }
        proof {
            assert(self.orders@.take(n as int) =~= self.orders@);
        }
        out
    }

    /// Drops every gathered order carrying `order_id`.
    pub fn delete_order(self, order_id: OrderId) -> (r: Self)
        ensures
            r.table_id == self.table_id,
            r.orders@ == without_id(self.orders@, order_id),
    {
        let n = self.orders.len();
        let mut kept: Vec<Order> = Vec::new();
        let mut i: usize = 0;
        while i < n
            invariant
                n == self.orders.len(),
                0 <= i <= n,
                kept@ == without_id(self.orders@.take(i as int), order_id),
            decreases n - i,
        {
            proof {
                assert(self.orders@.take(i + 1).drop_last() =~= self.orders@.take(i as int));
                assert(self.orders@.take(i + 1).last() == self.orders@[i as int]);
            }
            if self.orders[i].id != order_id {
                kept.push(self.orders[i]);
            }
            i = i + 1;
        }
        proof {
            assert(self.orders@.take(n as int) =~= self.orders@);
        }
        Table { table_id: self.table_id, orders: kept }
    }
}

} // verus!
