//! Bodies of responses: the entities of the store as they leave the service.

use vstd::prelude::*;
use vstd::std_specs::convert::FromSpecImpl;
use crate::order_store;

verus! {

/// An item of an order in a response.
pub struct Item {
    pub product_id: u128,
    pub quantity: i32,
}

/// The item of a response for an item of an order: the same product and
/// quantity.
pub open spec fn item_body(item: order_store::Item) -> Item {
    Item { product_id: item.product_id, quantity: item.quantity }
}

impl FromSpecImpl<order_store::Item> for Item {
    open spec fn obeys_from_spec() -> bool {
        true
    }

    open spec fn from_spec(item: order_store::Item) -> Self {
        item_body(item)
    }
}

impl From<order_store::Item> for Item {
    fn from(item: order_store::Item) -> (body: Self) {
        Item { product_id: item.product_id, quantity: item.quantity }
    }
}

/// An order in a response.
pub struct Order {
    pub id: u128,
    pub user_id: u128,
    pub items: Vec<Item>,
}

/// The items of a response for the items of an order: one for one, in the
/// same order.
pub open spec fn item_bodies(items: Seq<order_store::Item>) -> Seq<Item> {
    items.map_values(|item: order_store::Item| item_body(item))
}

/// Whether the response body `body` shows the order `order`: the same id,
/// the same user and the same items in the same order.
pub open spec fn shows(body: Order, order: order_store::OrderView) -> bool {
    &&& body.id == order.id
    &&& body.user_id == order.user_id
    &&& body.items@ == item_bodies(order.items)
}

impl FromSpecImpl<order_store::Order> for Order {
    /// A `Vec` cannot be written down in a specification, so the result is
    /// stated by `shows` and not by `from_spec`.
    open spec fn obeys_from_spec() -> bool {
        false
    }

    open spec fn from_spec(order: order_store::Order) -> Self {
        arbitrary()
    }
}

impl From<order_store::Order> for Order {
    fn from(order: order_store::Order) -> (body: Self)
        ensures
            shows(body, order@),
    {
        let mut items: Vec<Item> = Vec::new();
        let mut i: usize = 0;
        while i < order.items.len()
            invariant
                i <= order.items.len(),
                items@ == item_bodies(order.items@.take(i as int)),
            decreases order.items.len() - i,
        {
            items.push(Item::from(order.items[i]));
            assert(order.items@.take(i + 1) =~= order.items@.take(i as int).push(
                order.items@[i as int],
            ));
            assert(items@ =~= item_bodies(order.items@.take(i + 1)));
            i += 1;
        }
        assert(order.items@.take(i as int) =~= order.items@);
        Order { id: order.id, user_id: order.user_id, items }
    }
}

} // verus!
