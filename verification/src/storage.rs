//! The order store: the single source of truth for order identity,
//! visibility, and query results.
//!
//! Identifiers are assigned on insertion, starting at 1 and increasing by
//! one per order, and are never reused.  Deletion is soft: a deleted order
//! is marked with a deletion timestamp and excluded from every subsequent
//! read, never physically removed.  This mirrors a relation with columns
//! `id, table_id, meal_id, added_at, ready_at, deleted_at (nullable)`.

use vstd::prelude::*;

verus! {

use crate::order::{MealId, Order, OrderId, TableId, Timestamp};

/// One row of the store: an order plus its soft-deletion mark.
#[derive(Debug, Clone, Copy)]
pub struct StoredOrder {
    pub order: Order,
    pub deleted_at: Option<Timestamp>,
}

/// The durable collection of orders, in insertion order.
pub struct OrderStore {
    rows: Vec<StoredOrder>,
}

impl View for OrderStore {
    type V = Seq<StoredOrder>;

    closed spec fn view(&self) -> Seq<StoredOrder> {
        self.rows@
    }
}

/// The live orders of `rows` that belong to `table_id`, in insertion
/// order.
pub open spec fn visible_for_table(rows: Seq<StoredOrder>, table_id: TableId) -> Seq<Order>
    decreases rows.len(),
{
    if rows.len() == 0 {
        Seq::empty()
    } else {
        let prefix = visible_for_table(rows.drop_last(), table_id);
        if rows.last().deleted_at is None && rows.last().order.table_id == table_id {
            prefix.push(rows.last().order)
        } else {
            prefix
        }
    }
}

/// The live orders of `rows` that belong to `table_id` and name `meal_id`,
/// in insertion order.
pub open spec fn visible_for_table_meal(
    rows: Seq<StoredOrder>,
    table_id: TableId,
    meal_id: MealId,
) -> Seq<Order>
    decreases rows.len(),
{
    if rows.len() == 0 {
        Seq::empty()
    } else {
        let prefix = visible_for_table_meal(rows.drop_last(), table_id, meal_id);
        if rows.last().deleted_at is None && rows.last().order.table_id == table_id
            && rows.last().order.meal_id == meal_id {
            prefix.push(rows.last().order)
        } else {
            prefix
        }
    }
}

/// How a successful insertion relates the store before the call, the store
/// after it, the order handed in, and the order handed back.
pub open spec fn add_effect(pre: OrderStore, post: OrderStore, order: Order, r: Order) -> bool {
    &&& r.id == pre.next_id()
    &&& r.table_id == order.table_id
    &&& r.meal_id == order.meal_id
    &&& r.added_at == order.added_at
    &&& r.ready_at == order.ready_at
    &&& post@ == pre@.push((StoredOrder { order: r, deleted_at: None }))
}

/// How a deletion call relates the store before and after it to its result:
/// exactly the live order named is marked deleted, and the result reports
/// whether there was one.
pub open spec fn delete_effect(
    pre: OrderStore,
    post: OrderStore,
    order_id: OrderId,
    now: Timestamp,
    r: bool,
) -> bool {
    &&& r == pre.is_live(order_id)
    &&& if r {
        post@ == pre@.update(
            order_id - 1,
            (StoredOrder { order: pre.stored_order(order_id), deleted_at: Some(now) }),
        )
    } else {
        post@ == pre@
    }
}

impl OrderStore {
    /// The store is well formed when identifiers follow insertion order
    /// starting at 1, every order is expected ready strictly after it was
    /// added, and one more identifier can still be assigned.
    pub open spec fn wf(self) -> bool {
        &&& self@.len() < u32::MAX
        &&& forall|i: int| 0 <= i < self@.len() ==> (#[trigger] self@[i].order.id) == i + 1
        &&& forall|i: int|
            0 <= i < self@.len() ==> (#[trigger] self@[i].order.ready_at) > self@[i].order.added_at
    }

    /// The identifier the next accepted order will receive.
    pub open spec fn next_id(self) -> int {
        self@.len() as int + 1
    }

    /// Whether `id` has ever been assigned by this store.
    pub open spec fn issued(self, id: OrderId) -> bool {
        1 <= id <= self@.len()
    }

    /// Whether `id` names an order that exists and is not deleted.
    pub open spec fn is_live(self, id: OrderId) -> bool {
        self.issued(id) && self@[id - 1].deleted_at is None
    }

    /// The order that was assigned `id`.
    pub open spec fn stored_order(self, id: OrderId) -> Order
        recommends
            self.issued(id),
    {
        self@[id - 1].order
    }

    /// What a lookup by identifier returns: the order, if live.
    pub open spec fn spec_get(self, id: OrderId) -> Option<Order> {
        if self.is_live(id) {
            Some(self.stored_order(id))
        } else {
            None
        }
    }

    /// The answer to "orders for table `table_id`".
    pub open spec fn table_view(self, table_id: TableId) -> Seq<Order> {
        visible_for_table(self@, table_id)
    }

    /// The answer to "orders for table `table_id` naming `meal_id`".
    pub open spec fn table_meal_view(self, table_id: TableId, meal_id: MealId) -> Seq<Order> {
        visible_for_table_meal(self@, table_id, meal_id)
    }

    /// An empty store.
    pub fn new() -> (s: Self)
        ensures
            s.wf(),
            s@ =~= Seq::<StoredOrder>::empty(),
    {
        OrderStore { rows: Vec::new() }
    }

    /// Decides well-formedness at run time, for callers outside the
    /// verified world that must test it before relying on it.
    pub fn is_well_formed(&self) -> (r: bool)
        ensures
            r == self.wf(),
    {
        let n = self.rows.len();
        if n >= u32::MAX as usize {
            return false;
        }
        let mut i: usize = 0;
        while i < n
            invariant
                n == self.rows.len(),
                self@ == self.rows@,
                0 <= i <= n,
                n < u32::MAX,
                forall|j: int| 0 <= j < i ==> (#[trigger] self@[j].order.id) == j + 1,
                forall|j: int|
                    0 <= j < i ==> (#[trigger] self@[j].order.ready_at) > self@[j].order.added_at,
            decreases n - i,
        {
            let row = &self.rows[i];
            if row.order.id != (i as u32) + 1 || row.order.ready_at <= row.order.added_at {
                return false;
            }
            i = i + 1;
        }
        true
    }

    /// How many orders have ever been accepted, deleted ones included.
    pub fn order_count(&self) -> (n: usize)
        ensures
            n == self@.len(),
    {
        self.rows.len()
    }

    /// Accepts an order: assigns the next identifier and appends the row.
    /// The operation is all-or-nothing; the handed-back order differs from
    /// the handed-in one only in its identifier.
    pub fn add_order(&mut self, order: Order) -> (r: Order)
        requires
            old(self).wf(),
            order.ready_at > order.added_at,
            old(self)@.len() + 1 < u32::MAX,
        ensures
            final(self).wf(),
            add_effect(*old(self), *final(self), order, r),
    {
        let id: OrderId = (self.rows.len() + 1) as OrderId;
        let assigned = Order { id, ..order };
        self.rows.push(StoredOrder { order: assigned, deleted_at: None });
        assigned
    }

    /// Looks an order up by identifier.  Returns nothing both when the
    /// identifier was never issued and when the order was soft-deleted;
    /// the two cases are indistinguishable by design.
    pub fn get_order(&self, order_id: OrderId) -> (r: Option<Order>)
        requires
            self.wf(),
        ensures
            r == self.spec_get(order_id),
    {
        if 1 <= order_id && (order_id as usize) <= self.rows.len() {
            let row = &self.rows[(order_id - 1) as usize];
            if row.deleted_at.is_none() {
                return Some(row.order);
            }
        }
        None
    }

    /// Marks the named order deleted, stamping it with `now`.  Returns
    /// whether a live order was deleted; a second call on the same
    /// identifier finds no live order and changes nothing.
    pub fn delete_order(&mut self, order_id: OrderId, now: Timestamp) -> (r: bool)
        requires
            old(self).wf(),
        ensures
            final(self).wf(),
            delete_effect(*old(self), *final(self), order_id, now, r),
    {
        if 1 <= order_id && (order_id as usize) <= self.rows.len() {
            let idx = (order_id - 1) as usize;
            if self.rows[idx].deleted_at.is_none() {
                let order = self.rows[idx].order;
                self.rows.set(idx, StoredOrder { order, deleted_at: Some(now) });
                return true;
            }
        }
        false
    }

    /// All live orders of one table, in the order they were added.
    pub fn get_orders_for_table(&self, table_id: TableId) -> (r: Vec<Order>)
        requires
            self.wf(),
        ensures
            r@ == self.table_view(table_id),
    {
        let n = self.rows.len();
        let mut out: Vec<Order> = Vec::new();
        let mut i: usize = 0;
        while i < n
            invariant
                n == self.rows.len(),
                self@ == self.rows@,
                0 <= i <= n,
                out@ == visible_for_table(self@.take(i as int), table_id),
            decreases n - i,
        {
            proof {
                assert(self@.take(i + 1).drop_last() =~= self@.take(i as int));
                assert(self@.take(i + 1).last() == self@[i as int]);
            }
            let row = &self.rows[i];
            if row.deleted_at.is_none() && row.order.table_id == table_id {
                out.push(row.order);
            }
            i = i + 1;
        }
        proof {
            assert(self@.take(n as int) =~= self@);
        }
        out
    }

    /// All live orders of one table naming one meal, in the order they
    /// were added.
    pub fn get_meal_orders_for_table(&self, table_id: TableId, meal_id: MealId) -> (r: Vec<Order>)
        requires
            self.wf(),
        ensures
            r@ == self.table_meal_view(table_id, meal_id),
    {
        let n = self.rows.len();
        let mut out: Vec<Order> = Vec::new();
        let mut i: usize = 0;
        while i < n
            invariant
                n == self.rows.len(),
                self@ == self.rows@,
                0 <= i <= n,
                out@ == visible_for_table_meal(self@.take(i as int), table_id, meal_id),
            decreases n - i,
        {
            proof {
                assert(self@.take(i + 1).drop_last() =~= self@.take(i as int));
                assert(self@.take(i + 1).last() == self@[i as int]);
            }
            let row = &self.rows[i];
            if row.deleted_at.is_none() && row.order.table_id == table_id
                && row.order.meal_id == meal_id {
                out.push(row.order);
            }
            i = i + 1;
        }
        proof {
            assert(self@.take(n as int) =~= self@);
        }
        out
    }
}

/// Law: an order accepted by the store is found again under the
/// identifier it was assigned, unchanged.
pub proof fn lemma_get_after_add(pre: OrderStore, post: OrderStore, order: Order, r: Order)
    requires
        pre.wf(),
        add_effect(pre, post, order, r),
    ensures
        post.spec_get(r.id) == Some(r),
{
    assert(post@[r.id - 1] == (StoredOrder { order: r, deleted_at: None }));
}

/// Law: an identifier the store never issued finds no order.
pub proof fn lemma_unissued_absent(s: OrderStore, id: OrderId)
    requires
        s.wf(),
        !s.issued(id),
    ensures
        s.spec_get(id) is None,
{
}

/// Law: once a deletion reports success, the identifier finds no order
/// any more, and a further deletion of it must report failure.
pub proof fn lemma_deleted_stays_absent(
    pre: OrderStore,
    post: OrderStore,
    order_id: OrderId,
    now: Timestamp,
)
    requires
        pre.wf(),
        delete_effect(pre, post, order_id, now, true),
    ensures
        post.spec_get(order_id) is None,
        !post.is_live(order_id),
{
    assert(post@[order_id - 1].deleted_at == Some(now));
}

/// A live row of the queried table is not forgotten by the query.
proof fn lemma_visible_complete(rows: Seq<StoredOrder>, table_id: TableId, i: int)
    requires
        0 <= i < rows.len(),
        rows[i].deleted_at is None,
        rows[i].order.table_id == table_id,
    ensures
        visible_for_table(rows, table_id).contains(rows[i].order),
    decreases rows.len(),
{
    let v = visible_for_table(rows, table_id);
    if i == rows.len() - 1 {
        assert(v[v.len() - 1] == rows[i].order);
    } else {
        let prefix = rows.drop_last();
        lemma_visible_complete(prefix, table_id, i);
        let pv = visible_for_table(prefix, table_id);
        let k = choose|k: int| 0 <= k < pv.len() && pv[k] == prefix[i].order;
        assert(v[k] == rows[i].order);
    }
}

/// Law: a table query yields every live order of the table — together
/// with its exact contract, the query returns exactly the set of
/// non-deleted orders with that table identifier.
pub proof fn lemma_table_query_complete(s: OrderStore, table_id: TableId, i: int)
    requires
        s.wf(),
        0 <= i < s@.len(),
        s@[i].deleted_at is None,
        s@[i].order.table_id == table_id,
    ensures
        s.table_view(table_id).contains(s@[i].order),
{
    lemma_visible_complete(s@, table_id, i);
}

/// The position in the rows that the `k`-th entry of a table query came
/// from.
spec fn visible_src(rows: Seq<StoredOrder>, table_id: TableId, k: int) -> int
    decreases rows.len(),
{
    if rows.len() == 0 {
        0
    } else if k < visible_for_table(rows.drop_last(), table_id).len() {
        visible_src(rows.drop_last(), table_id, k)
    } else {
        rows.len() - 1
    }
}

/// What holds of the row behind the `k`-th entry of a table query: it is
/// in range, carries that very order, is not deleted, and belongs to the
/// queried table.
spec fn visible_src_ok(rows: Seq<StoredOrder>, table_id: TableId, k: int) -> bool {
    let i = visible_src(rows, table_id, k);
    &&& 0 <= i < rows.len()
    &&& rows[i].order == visible_for_table(rows, table_id)[k]
    &&& rows[i].deleted_at is None
    &&& rows[i].order.table_id == table_id
}

/// Every order a table query yields stands somewhere in the rows, live
/// and belonging to the queried table.
proof fn lemma_visible_membership(rows: Seq<StoredOrder>, table_id: TableId)
    ensures
        forall|k: int|
            0 <= k < visible_for_table(rows, table_id).len() ==> #[trigger] visible_src_ok(
                rows,
                table_id,
                k,
            ),
    decreases rows.len(),
{
    if rows.len() > 0 {
        let prefix = rows.drop_last();
        lemma_visible_membership(prefix, table_id);
        let v = visible_for_table(rows, table_id);
        let pv = visible_for_table(prefix, table_id);
        assert forall|k: int| 0 <= k < v.len() implies #[trigger] visible_src_ok(
            rows,
            table_id,
            k,
        ) by {
            if k < pv.len() {
                assert(visible_src_ok(prefix, table_id, k));
                assert(rows[visible_src(prefix, table_id, k)] == prefix[visible_src(
                    prefix,
                    table_id,
                    k,
                )]);
                assert(v[k] == pv[k]);
            } else {
                assert(v[k] == rows.last().order);
            }
        }
    }
}

/// Entries of a table query in query order come from rows in that same
/// order.
proof fn lemma_visible_src_monotonic(
    rows: Seq<StoredOrder>,
    table_id: TableId,
    k1: int,
    k2: int,
)
    requires
        0 <= k1 < k2 < visible_for_table(rows, table_id).len(),
    ensures
        visible_src(rows, table_id, k1) < visible_src(rows, table_id, k2),
    decreases rows.len(),
{
    let prefix = rows.drop_last();
    let pv = visible_for_table(prefix, table_id);
    if k2 < pv.len() {
        lemma_visible_src_monotonic(prefix, table_id, k1, k2);
    } else {
        lemma_visible_membership(prefix, table_id);
        assert(visible_src_ok(prefix, table_id, k1));
    }
}

/// Law: a table query never includes an order of another table, never
/// includes a deleted order, and keeps insertion order (identifiers
/// strictly ascending).
pub proof fn lemma_table_query_sound(s: OrderStore, table_id: TableId)
    requires
        s.wf(),
    ensures
        forall|k: int|
            0 <= k < s.table_view(table_id).len() ==> (#[trigger] s.table_view(table_id)[k])
                .table_id == table_id,
        forall|k: int|
            0 <= k < s.table_view(table_id).len() ==> s.is_live(
                (#[trigger] s.table_view(table_id)[k]).id,
            ),
        forall|k1: int, k2: int|
            0 <= k1 < k2 < s.table_view(table_id).len() ==> (#[trigger] s.table_view(
                table_id,
            )[k1]).id < (#[trigger] s.table_view(table_id)[k2]).id,
{
    lemma_visible_membership(s@, table_id);
    let v = s.table_view(table_id);
    assert forall|k: int| 0 <= k < v.len() implies v[k].table_id == table_id && s.is_live(
        v[k].id,
    ) by {
        assert(visible_src_ok(s@, table_id, k));
        let i = visible_src(s@, table_id, k);
        assert(s@[i].order.id == i + 1);
        assert(s@[v[k].id - 1] == s@[i]);
    }
    assert forall|k1: int, k2: int| 0 <= k1 < k2 < v.len() implies v[k1].id < v[k2].id by {
        assert(visible_src_ok(s@, table_id, k1));
        assert(visible_src_ok(s@, table_id, k2));
        lemma_visible_src_monotonic(s@, table_id, k1, k2);
        let i1 = visible_src(s@, table_id, k1);
        let i2 = visible_src(s@, table_id, k2);
        assert(s@[i1].order.id == i1 + 1);
        assert(s@[i2].order.id == i2 + 1);
    }
}

} // verus!
