//! The storage contract: the entities, the error taxonomy and the
//! operations every order store offers.

use vstd::prelude::*;

verus! {

/// One line of an order: a product and how many of it.
///
/// An item has no identity of its own; it is addressed by its position in
/// the order's item sequence. The quantity is not constrained.
#[derive(Clone, Copy, Debug, PartialEq, Eq)]
pub struct Item {
    /// Id of the product (the 128 bits of its UUID).
    pub product_id: u128,
    /// Number of items of this product.
    pub quantity: i32,
}

/// An order in the system.
#[derive(Debug, PartialEq, Eq)]
pub struct Order {
    /// An order is identified by its id (the 128 bits of its UUID).
    pub id: u128,
    /// Each order belongs to a user.
    pub user_id: u128,
    /// The items of the order, in insertion order.
    pub items: Vec<Item>,
}

/// The mathematical value of an [`Order`].
pub struct OrderView {
    pub id: u128,
    pub user_id: u128,
    pub items: Seq<Item>,
}

impl View for Order {
    type V = OrderView;

    open spec fn view(&self) -> OrderView {
        OrderView { id: self.id, user_id: self.user_id, items: self.items@ }
    }
}

/// Whether `id` carries the version and variant bits of a random
/// (version 4) UUID.
pub open spec fn is_random_uuid(id: u128) -> bool {
    (id >> 76) & 0xf == 4 && (id >> 62) & 0x3 == 2
}

/// A freshly drawn random id.
///
/// Calls `uuid::Uuid::new_v4` and hands its 128 bits out through
/// `Uuid::as_u128`. Trusted: every value it returns has the version nibble 4
/// and the variant bits `10`, which `new_v4` sets by masking; nothing else is
/// claimed of the value, and two calls may return the same one. `new_v4`
/// panics when the operating system cannot supply random bytes.
#[verifier::external_body]
pub(crate) fn random_uuid() -> (id: u128)
    ensures
        is_random_uuid(id),
{
    uuid::Uuid::new_v4().as_u128()
}

impl Order {
    /// The value of an order without items.
    pub open spec fn empty(id: u128, user_id: u128) -> OrderView {
        OrderView { id, user_id, items: Seq::empty() }
    }

    /// An order without items, with the given id, for user `user_id`.
    pub fn with_id(id: u128, user_id: u128) -> (order: Order)
        ensures
            order@ == Order::empty(id, user_id),
    {
        Order { id, user_id, items: Vec::new() }
    }

    /// A new order without items for user `user_id`, under a random id.
    pub fn new(user_id: u128) -> (order: Order)
        ensures
            order@ == Order::empty(order.id, user_id),
            is_random_uuid(order.id),
    {
        Order::with_id(random_uuid(), user_id)
    }
}

impl Clone for Order {
    /// An independent copy with the same value.
    fn clone(&self) -> (res: Self)
        ensures
            res@ == self@,
    {
        Order { id: self.id, user_id: self.user_id, items: self.items.clone() }
    }
}

/// The ways in which an operation on an order store can fail.
#[derive(Clone, Copy, Debug, PartialEq, Eq)]
pub enum OrderStoreError {
    /// The store is unavailable.
    StoreUnavailable,
    /// Provided order id was not found in the store.
    OrderNotFound(u128),
    /// Provided item index is out of bounds for the provided order.
    ItemIndexOutOfBounds(usize),
}

/// What every order store offers, whatever holds its orders.
///
/// Each operation is atomic with respect to a single order. A store hands
/// out copies, never access to what it holds.
pub trait OrderStore: Send + Sync + 'static {
    /// Creates a new order without items for user `user_id` and returns a
    /// copy of it.
    fn create_order(&self, user_id: u128) -> (r: Result<Order, OrderStoreError>)
        ensures
            match r {
                Ok(order) => order@ == Order::empty(order.id, user_id),
                Err(e) => e == OrderStoreError::StoreUnavailable,
            },
    ;

    /// A copy of the order with the id `order_id`.
    fn get_order(&self, order_id: u128) -> (r: Result<Order, OrderStoreError>)
        ensures
            match r {
                Ok(order) => order.id == order_id,
                Err(e) => e == OrderStoreError::StoreUnavailable || e
                    == OrderStoreError::OrderNotFound(order_id),
            },
    ;

    /// Copies of the orders of user `user_id`; none is no error.
    fn list_orders(&self, user_id: u128) -> (r: Result<Vec<Order>, OrderStoreError>)
        ensures
            match r {
                Ok(orders) => forall|k: int|
                    0 <= k < orders@.len() ==> (#[trigger] orders@[k]).user_id == user_id,
                Err(e) => e == OrderStoreError::StoreUnavailable,
            },
    ;

    /// Appends an item to the order with the id `order_id`.
    fn add_item(&self, order_id: u128, product_id: u128, quantity: i32) -> (r: Result<
        (),
        OrderStoreError,
    >)
        ensures
            r matches Err(e) ==> e == OrderStoreError::StoreUnavailable || e
                == OrderStoreError::OrderNotFound(order_id),
    ;

    /// Deletes the item at position `index` from the order with the id
    /// `order_id`.
    fn delete_item(&self, order_id: u128, index: usize) -> (r: Result<(), OrderStoreError>)
        ensures
            r matches Err(e) ==> e == OrderStoreError::StoreUnavailable || e
                == OrderStoreError::OrderNotFound(order_id) || e
                == OrderStoreError::ItemIndexOutOfBounds(index),
    ;
}

/// An order store of any kind behind one type.
pub struct OrderStoreNewtype(pub Box<dyn OrderStore>);

impl OrderStoreNewtype {
    /// Wraps the store `repo`.
    pub fn new(repo: impl OrderStore) -> OrderStoreNewtype {
        OrderStoreNewtype(Box::new(repo))
    }
}

impl std::ops::Deref for OrderStoreNewtype {
    type Target = dyn OrderStore;

    /// The store inside.
    fn deref(&self) -> &Self::Target {
        &*self.0
    }
}

} // verus!
