//! A collection of orders searched by linear scan, and the mathematical
//! model of what each operation on it does.
//!
//! The model of a collection is the sequence of its orders' values, oldest
//! first. A lookup by id finds the first order with that id.

use vstd::prelude::*;
use crate::order_store::{is_random_uuid, random_uuid, Item, Order, OrderStoreError, OrderView};

verus! {

/// The values of a sequence of orders.
pub open spec fn views(orders: Seq<Order>) -> Seq<OrderView> {
    orders.map_values(|o: Order| o@)
}

/// Whether some order of `orders` has the id `id`.
pub open spec fn contains_id(orders: Seq<OrderView>, id: u128) -> bool {
    exists|i: int| 0 <= i < orders.len() && (#[trigger] orders[i]).id == id
}

/// Whether `i` is the position of the first order of `orders` with the id `id`.
pub open spec fn is_first_with_id(orders: Seq<OrderView>, id: u128, i: int) -> bool {
    &&& 0 <= i < orders.len()
    &&& orders[i].id == id
    &&& forall|j: int| 0 <= j < i ==> (#[trigger] orders[j]).id != id
}

/// The position of the first order with the id `id`; meaningful where
/// `contains_id(orders, id)` holds.
pub open spec fn position_of(orders: Seq<OrderView>, id: u128) -> int {
    choose|i: int| is_first_with_id(orders, id, i)
}

/// The order that a lookup by id finds: the first one with that id.
pub open spec fn lookup(orders: Seq<OrderView>, id: u128) -> Option<OrderView> {
    if contains_id(orders, id) {
        Some(orders[position_of(orders, id)])
    } else {
        None
    }
}

/// No two orders share an id.
pub open spec fn ids_distinct(orders: Seq<OrderView>) -> bool {
    forall|i: int, j: int|
        0 <= i < j < orders.len() ==> (#[trigger] orders[i]).id != (#[trigger] orders[j]).id
}

/// The orders that belong to user `user_id`, in the order of the collection.
pub open spec fn orders_of(orders: Seq<OrderView>, user_id: u128) -> Seq<OrderView> {
    orders.filter(|o: OrderView| o.user_id == user_id)
}

/// The order `order` with `item` appended to its items.
pub open spec fn with_item(order: OrderView, item: Item) -> OrderView {
    OrderView { items: order.items.push(item), ..order }
}

/// The order `order` without the item at position `index`; the items behind
/// it move one position towards the front.
pub open spec fn without_item(order: OrderView, index: int) -> OrderView {
    OrderView { items: order.items.remove(index), ..order }
}

/// What a lookup of `id` returns.
pub open spec fn get_order_result(orders: Seq<OrderView>, id: u128) -> Result<
    OrderView,
    OrderStoreError,
> {
    match lookup(orders, id) {
        Some(order) => Ok(order),
        None => Err(OrderStoreError::OrderNotFound(id)),
    }
}

/// What appending an item to the order `id` returns.
pub open spec fn add_item_result(orders: Seq<OrderView>, id: u128) -> Result<(), OrderStoreError> {
    if contains_id(orders, id) {
        Ok(())
    } else {
        Err(OrderStoreError::OrderNotFound(id))
    }
}

/// The collection after appending `item` to the order `id`: unchanged where
/// no order has that id.
pub open spec fn after_add_item(orders: Seq<OrderView>, id: u128, item: Item) -> Seq<OrderView> {
    if contains_id(orders, id) {
        let i = position_of(orders, id);
        orders.update(i, with_item(orders[i], item))
    } else {
        orders
    }
}

/// What deleting the item at `index` from the order `id` returns.
pub open spec fn delete_item_result(orders: Seq<OrderView>, id: u128, index: usize) -> Result<
    (),
    OrderStoreError,
> {
    match lookup(orders, id) {
        Some(order) => if index < order.items.len() {
            Ok(())
        } else {
            Err(OrderStoreError::ItemIndexOutOfBounds(index))
        },
        None => Err(OrderStoreError::OrderNotFound(id)),
    }
}

/// The collection after deleting the item at `index` from the order `id`:
/// unchanged where the deletion fails.
pub open spec fn after_delete_item(orders: Seq<OrderView>, id: u128, index: usize) -> Seq<
    OrderView,
> {
    if delete_item_result(orders, id, index) is Ok {
        let i = position_of(orders, id);
        orders.update(i, without_item(orders[i], index as int))
    } else {
        orders
    }
}

/// Where an order has the id, a first one has it, and `position_of` is its
/// position.
pub proof fn lemma_position_of(orders: Seq<OrderView>, id: u128)
    requires
        contains_id(orders, id),
    ensures
        is_first_with_id(orders, id, position_of(orders, id)),
{
    let k = choose|k: int| 0 <= k < orders.len() && (#[trigger] orders[k]).id == id;
    lemma_first_up_to(orders, id, k);
}

proof fn lemma_first_up_to(orders: Seq<OrderView>, id: u128, k: int)
    requires
        0 <= k < orders.len(),
        orders[k].id == id,
    ensures
        exists|i: int| is_first_with_id(orders, id, i),
    decreases k,
{
    if exists|j: int| 0 <= j < k && (#[trigger] orders[j]).id == id {
        let j = choose|j: int| 0 <= j < k && (#[trigger] orders[j]).id == id;
        lemma_first_up_to(orders, id, j);
    } else {
        assert(is_first_with_id(orders, id, k));
    }
}

/// The first position with an id is the only one that `is_first_with_id`
/// accepts.
pub proof fn lemma_first_is_position(orders: Seq<OrderView>, id: u128, i: int)
    requires
        is_first_with_id(orders, id, i),
    ensures
        contains_id(orders, id),
        position_of(orders, id) == i,
        lookup(orders, id) == Some(orders[i]),
{
    let p = position_of(orders, id);
    assert(is_first_with_id(orders, id, p));
    if p < i {
        assert(orders[p].id != id);
    } else if i < p {
        assert(orders[i].id != id);
    }
}

/// A collection of orders in creation order.
pub struct OrderList {
    orders: Vec<Order>,
}

impl View for OrderList {
    type V = Seq<OrderView>;

    closed spec fn view(&self) -> Seq<OrderView> {
        views(self.orders@)
    }
}

impl OrderList {
    /// An empty collection.
    pub fn new() -> (list: OrderList)
        ensures
            list@ == Seq::<OrderView>::empty(),
    {
        OrderList { orders: Vec::new() }
    }

    /// The position of the first order with the id `id`.
    fn find(&self, id: u128) -> (r: Option<usize>)
        ensures
            match r {
                Some(i) => is_first_with_id(self@, id, i as int),
                None => !contains_id(self@, id),
            },
    {
        let mut i: usize = 0;
        while i < self.orders.len()
            invariant
                i <= self.orders.len(),
                forall|j: int| 0 <= j < i ==> (#[trigger] self@[j]).id != id,
            decreases self.orders.len() - i,
        {
            if self.orders[i].id == id {
                return Some(i);
            }
            i += 1;
        }
        None
    }

    /// Appends a new order without items, with the id `id`, for user
    /// `user_id`, and returns a copy of it.
    ///
    /// Where `id` is new to the collection, a lookup of `id` afterwards finds
    /// the new order; where an older order has it already, lookups go on
    /// finding the older one.
    pub fn insert_new(&mut self, id: u128, user_id: u128) -> (order: Order)
        ensures
            order@ == Order::empty(id, user_id),
            final(self)@ == old(self)@.push(order@),
    {
        let order = Order::with_id(id, user_id);
        self.orders.push(order.clone());
        assert(self@ =~= old(self)@.push(order@));
        order
    }

    /// Creates a new order without items for user `user_id`, under a random
    /// id, appends it and returns a copy of it.
    pub fn create_order(&mut self, user_id: u128) -> (order: Order)
        ensures
            order@ == Order::empty(order.id, user_id),
            is_random_uuid(order.id),
            final(self)@ == old(self)@.push(order@),
    {
        let id = random_uuid();
        self.insert_new(id, user_id)
    }

    /// A copy of the first order with the id `order_id`.
    pub fn get_order(&self, order_id: u128) -> (r: Result<Order, OrderStoreError>)
        ensures
            match r {
                Ok(order) => get_order_result(self@, order_id) == Ok::<OrderView, OrderStoreError>(
                    order@,
                ),
                Err(e) => get_order_result(self@, order_id) == Err::<OrderView, OrderStoreError>(e),
            },
    {
        match self.find(order_id) {
            Some(i) => {
                proof {
                    lemma_first_is_position(self@, order_id, i as int);
                }
                Ok(self.orders[i].clone())
            },
            None => Err(OrderStoreError::OrderNotFound(order_id)),
        }
    }

    /// Copies of all orders of user `user_id`, oldest first.
    pub fn list_orders(&self, user_id: u128) -> (found: Vec<Order>)
        ensures
            views(found@) == orders_of(self@, user_id),
    {
        let mut found: Vec<Order> = Vec::new();
        let mut i: usize = 0;
        assert(orders_of(self@.take(0), user_id) =~= Seq::<OrderView>::empty()) by {
            reveal(Seq::filter);
        }
        while i < self.orders.len()
            invariant
                i <= self.orders.len(),
                views(found@) == orders_of(self@.take(i as int), user_id),
            decreases self.orders.len() - i,
        {
            proof {
                self@.lemma_take_succ_push(i as int);
                self@.take(i as int).lemma_filter_push(
                    self@[i as int],
                    |o: OrderView| o.user_id == user_id,
                );
            }
            if self.orders[i].user_id == user_id {
                let ghost before = found@;
                let order = self.orders[i].clone();
                found.push(order);
                assert(views(found@) =~= views(before).push(self@[i as int]));
            }
            i += 1;
        }
        assert(self@.take(i as int) =~= self@);
        found
    }

    /// Appends the item `(product_id, quantity)` to the first order with the
    /// id `order_id`. No quantity is refused.
    pub fn add_item(&mut self, order_id: u128, product_id: u128, quantity: i32) -> (r: Result<
        (),
        OrderStoreError,
    >)
        ensures
            r == add_item_result(old(self)@, order_id),
            final(self)@ == after_add_item(old(self)@, order_id, Item { product_id, quantity }),
    {
        match self.find(order_id) {
            Some(i) => {
                proof {
                    lemma_first_is_position(self@, order_id, i as int);
                }
                self.orders[i].items.push(Item { product_id, quantity });
                assert(self@ =~= after_add_item(
                    old(self)@,
                    order_id,
                    Item { product_id, quantity },
                ));
                Ok(())
            },
            None => Err(OrderStoreError::OrderNotFound(order_id)),
        }
    }

    /// Removes the item at position `index` from the first order with the id
    /// `order_id`; the items behind it move one position towards the front.
    pub fn delete_item(&mut self, order_id: u128, index: usize) -> (r: Result<(), OrderStoreError>)
        ensures
            r == delete_item_result(old(self)@, order_id, index),
            final(self)@ == after_delete_item(old(self)@, order_id, index),
    {
        match self.find(order_id) {
            Some(i) => {
                proof {
                    lemma_first_is_position(self@, order_id, i as int);
                }
                if index < self.orders[i].items.len() {
                    self.orders[i].items.remove(index);
                    assert(self@ =~= after_delete_item(old(self)@, order_id, index));
                    Ok(())
                } else {
                    Err(OrderStoreError::ItemIndexOutOfBounds(index))
                }
            },
            None => Err(OrderStoreError::OrderNotFound(order_id)),
        }
    }
}

} // verus!
