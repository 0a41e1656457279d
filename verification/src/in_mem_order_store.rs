//! The in-memory order store: one collection of orders behind one
//! reader/writer lock.
//!
//! Readers (`get_order`, `list_orders`) share the lock; writers
//! (`create_order`, `add_item`, `delete_item`) hold it alone, each for the
//! whole of its operation. What the lock holds between two operations of one
//! caller may have been changed by another, so the contracts here state what
//! holds whatever the collection held; `order_list` states what each
//! operation does to a given collection.

use vstd::prelude::*;
use vstd::rwlock::{RwLock, RwLockPredicate};
use crate::laws::lemma_list_is_exact;
use crate::order_list::{
    after_add_item, after_delete_item, contains_id, lemma_position_of, position_of, views,
    OrderList,
};
use crate::order_store::{is_random_uuid, Item, Order, OrderStore, OrderStoreError, OrderView};

verus! {

/// Every order's id is a random UUID.
pub open spec fn all_ids_random(orders: Seq<OrderView>) -> bool {
    forall|i: int| 0 <= i < orders.len() ==> is_random_uuid((#[trigger] orders[i]).id)
}

/// What the lock of an [`InMemOrderStore`] admits: collections in which
/// every order's id is a random UUID.
pub struct RandomIds;

impl RwLockPredicate<OrderList> for RandomIds {
    open spec fn inv(self, list: OrderList) -> bool {
        all_ids_random(list@)
    }
}

/// An order store that keeps its orders in memory.
pub struct InMemOrderStore {
    orders: RwLock<OrderList, RandomIds>,
}

impl InMemOrderStore {
    /// Creates a new in-memory order store without orders.
    pub fn new() -> (store: InMemOrderStore) {
        InMemOrderStore { orders: RwLock::new(OrderList::new(), Ghost(RandomIds)) }
    }
}

impl OrderStore for InMemOrderStore {
    /// Never fails; the new order's id is a random UUID.
    fn create_order(&self, user_id: u128) -> (r: Result<Order, OrderStoreError>)
        ensures
            r matches Ok(order) && is_random_uuid(order.id),
    {
        let (mut list, handle) = self.orders.acquire_write();
        let order = list.create_order(user_id);
        handle.release_write(list);
        Ok(order)
    }

    /// Fails with `OrderNotFound` only; an id that is no random UUID is
    /// never found.
    fn get_order(&self, order_id: u128) -> (r: Result<Order, OrderStoreError>)
        ensures
            match r {
                Ok(order) => is_random_uuid(order_id),
                Err(e) => e == OrderStoreError::OrderNotFound(order_id),
            },
    {
        let handle = self.orders.acquire_read();
        let list = handle.borrow();
        let r = list.get_order(order_id);
        proof {
            if contains_id(list@, order_id) {
                lemma_position_of(list@, order_id);
            }
        }
        handle.release_read();
        r
    }

    /// Never fails; every listed order's id is a random UUID.
    fn list_orders(&self, user_id: u128) -> (r: Result<Vec<Order>, OrderStoreError>)
        ensures
            r matches Ok(orders) && all_ids_random(views(orders@)),
    {
        let handle = self.orders.acquire_read();
        let list = handle.borrow();
        let found = list.list_orders(user_id);
        proof {
            lemma_list_is_exact(list@, user_id);
            assert forall|k: int| 0 <= k < found@.len() implies (#[trigger] found@[k]).user_id
                == user_id && is_random_uuid(found@[k].id) by {
                let v = views(found@)[k];
                assert(list@.contains(v));
                let i = choose|i: int| 0 <= i < list@.len() && list@[i] == v;
                assert(is_random_uuid(list@[i].id));
            }
            assert forall|k: int| 0 <= k < views(found@).len() implies is_random_uuid(
                (#[trigger] views(found@)[k]).id,
            ) by {
                assert(is_random_uuid(found@[k].id));
            }
        }
        handle.release_read();
        Ok(found)
    }

    /// Fails with `OrderNotFound` only, and does so for every id that is no
    /// random UUID.
    fn add_item(&self, order_id: u128, product_id: u128, quantity: i32) -> (r: Result<
        (),
        OrderStoreError,
    >)
        ensures
            r matches Err(e) ==> e == OrderStoreError::OrderNotFound(order_id),
            !is_random_uuid(order_id) ==> r is Err,
    {
        let (mut list, handle) = self.orders.acquire_write();
        let ghost before = list@;
        let r = list.add_item(order_id, product_id, quantity);
        proof {
            if contains_id(before, order_id) {
                lemma_position_of(before, order_id);
            }
            lemma_same_ids_stay_random(
                before,
                after_add_item(before, order_id, Item { product_id, quantity }),
                order_id,
            );
        }
        handle.release_write(list);
        r
    }

    /// Fails with `OrderNotFound` or `ItemIndexOutOfBounds` only, and with
    /// `OrderNotFound` for every id that is no random UUID.
    fn delete_item(&self, order_id: u128, index: usize) -> (r: Result<(), OrderStoreError>)
        ensures
            r matches Err(e) ==> e == OrderStoreError::OrderNotFound(order_id) || e
                == OrderStoreError::ItemIndexOutOfBounds(index),
            !is_random_uuid(order_id) ==> r == Err::<(), OrderStoreError>(
                OrderStoreError::OrderNotFound(order_id),
            ),
    {
        let (mut list, handle) = self.orders.acquire_write();
        let ghost before = list@;
        let r = list.delete_item(order_id, index);
        proof {
            if contains_id(before, order_id) {
                lemma_position_of(before, order_id);
            }
            lemma_same_ids_stay_random(before, after_delete_item(before, order_id, index), order_id);
        }
        handle.release_write(list);
        r
    }
}

/// A collection whose orders keep their ids keeps them random; and an id
/// that is no random UUID is the id of none of its orders.
proof fn lemma_same_ids_stay_random(before: Seq<OrderView>, after: Seq<OrderView>, id: u128)
    requires
        all_ids_random(before),
        after.len() == before.len(),
        forall|i: int| 0 <= i < before.len() ==> (#[trigger] after[i]).id == before[i].id,
    ensures
        all_ids_random(after),
        !is_random_uuid(id) ==> !contains_id(before, id),
{
    assert forall|i: int| 0 <= i < after.len() implies is_random_uuid((#[trigger] after[i]).id) by {
        assert(is_random_uuid(before[i].id));
    }
    if contains_id(before, id) {
        lemma_position_of(before, id);
        assert(is_random_uuid(before[position_of(before, id)].id));
    }
}

} // verus!
