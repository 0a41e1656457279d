//! What the replies of a document database mean to an order store.
//!
//! A store that keeps its orders in a document database asks the database
//! and waits; what it then returns is decided here, from the reply alone. A
//! reply is `Err(())` where the database could not be asked or did not
//! answer.

use vstd::prelude::*;
use crate::order_store::{Order, OrderStoreError};

verus! {

/// How many documents an update matched and how many it changed.
pub struct UpdateCounts {
    pub matched_count: u64,
    pub modified_count: u64,
}

/// What adding an item to the order `order_id` returns, from the reply to
/// the update: success where exactly one document was changed; else
/// `OrderNotFound` where none was matched; else, and where the database did
/// not answer, `StoreUnavailable`.
pub open spec fn add_item_from_reply(order_id: u128, reply: Result<UpdateCounts, ()>) -> Result<
    (),
    OrderStoreError,
> {
    match reply {
        Ok(counts) => if counts.modified_count == 1 {
            Ok(())
        } else if counts.matched_count == 0 {
            Err(OrderStoreError::OrderNotFound(order_id))
        } else {
            Err(OrderStoreError::StoreUnavailable)
        },
        Err(_) => Err(OrderStoreError::StoreUnavailable),
    }
}

/// What deleting the item at `index` from the order `order_id` returns,
/// from the reply to the update that empties that position: success where
/// exactly one document was changed; else `OrderNotFound` where none was
/// matched; else `ItemIndexOutOfBounds` where the order was matched and
/// left as it was, which is what the database does at a position without an
/// item; else, and where the database did not answer, `StoreUnavailable`.
pub open spec fn delete_item_from_reply(
    order_id: u128,
    index: usize,
    reply: Result<UpdateCounts, ()>,
) -> Result<(), OrderStoreError> {
    match reply {
        Ok(counts) => if counts.modified_count == 1 {
            Ok(())
        } else if counts.matched_count == 0 {
            Err(OrderStoreError::OrderNotFound(order_id))
        } else if counts.modified_count == 0 {
            Err(OrderStoreError::ItemIndexOutOfBounds(index))
        } else {
            Err(OrderStoreError::StoreUnavailable)
        },
        Err(_) => Err(OrderStoreError::StoreUnavailable),
    }
}

/// The order `order` where the database took it, else `StoreUnavailable`.
pub fn create_order_outcome(order: Order, inserted: Result<(), ()>) -> (r: Result<
    Order,
    OrderStoreError,
>)
    ensures
        match r {
            Ok(created) => inserted is Ok && created == order,
            Err(e) => inserted is Err && e == OrderStoreError::StoreUnavailable,
        },
{
    match inserted {
        Ok(_) => Ok(order),
        Err(_) => Err(OrderStoreError::StoreUnavailable),
    }
}

/// The order that the database found; `OrderNotFound` with `order_id` where
/// it found none; `StoreUnavailable` where it did not answer.
pub fn get_order_outcome(order_id: u128, reply: Result<Option<Order>, ()>) -> (r: Result<
    Order,
    OrderStoreError,
>)
    ensures
        match reply {
            Ok(Some(order)) => r == Ok::<Order, OrderStoreError>(order),
            Ok(None) => r == Err::<Order, OrderStoreError>(
                OrderStoreError::OrderNotFound(order_id),
            ),
            Err(_) => r == Err::<Order, OrderStoreError>(OrderStoreError::StoreUnavailable),
        },
{
    match reply {
        Ok(Some(order)) => Ok(order),
        Ok(None) => Err(OrderStoreError::OrderNotFound(order_id)),
        Err(_) => Err(OrderStoreError::StoreUnavailable),
    }
}

/// The orders that the database found. `reply` is `Err(())` where the query
/// failed or its results could not be read to the end: a failure is
/// `StoreUnavailable`, never a shorter list.
pub fn list_orders_outcome(reply: Result<Vec<Order>, ()>) -> (r: Result<
    Vec<Order>,
    OrderStoreError,
>)
    ensures
        match reply {
            Ok(orders) => r == Ok::<Vec<Order>, OrderStoreError>(orders),
            Err(_) => r == Err::<Vec<Order>, OrderStoreError>(OrderStoreError::StoreUnavailable),
        },
{
    match reply {
        Ok(orders) => Ok(orders),
        Err(_) => Err(OrderStoreError::StoreUnavailable),
    }
}

/// What adding an item to the order `order_id` returns, from the reply to
/// the update.
pub fn add_item_outcome(order_id: u128, reply: Result<UpdateCounts, ()>) -> (r: Result<
    (),
    OrderStoreError,
>)
    ensures
        r == add_item_from_reply(order_id, reply),
{
    match reply {
        Ok(counts) => {
            if counts.modified_count == 1 {
                Ok(())
            } else if counts.matched_count == 0 {
                Err(OrderStoreError::OrderNotFound(order_id))
            } else {
                Err(OrderStoreError::StoreUnavailable)
            }
        },
        Err(_) => Err(OrderStoreError::StoreUnavailable),
    }
}

/// What deleting the item at `index` from the order `order_id` returns,
/// from the reply to the update that empties that position. Where this is
/// `Ok`, the emptied position is still to be taken out of the items, so
/// that the items behind it move towards the front: see
/// [`close_gap_outcome`].
pub fn delete_item_outcome(order_id: u128, index: usize, reply: Result<UpdateCounts, ()>) -> (r:
    Result<(), OrderStoreError>)
    ensures
        r == delete_item_from_reply(order_id, index, reply),
{
    match reply {
        Ok(counts) => {
            if counts.modified_count == 1 {
                Ok(())
            } else if counts.matched_count == 0 {
                Err(OrderStoreError::OrderNotFound(order_id))
            } else if counts.modified_count == 0 {
                Err(OrderStoreError::ItemIndexOutOfBounds(index))
            } else {
                Err(OrderStoreError::StoreUnavailable)
            }
        },
        Err(_) => Err(OrderStoreError::StoreUnavailable),
    }
}

/// What deleting an item returns once the database has answered the update
/// that takes the emptied position out of the items: success whatever it
/// counted, `StoreUnavailable` where it did not answer.
pub fn close_gap_outcome(reply: Result<UpdateCounts, ()>) -> (r: Result<(), OrderStoreError>)
    ensures
        r == (match reply {
            Ok(_) => Ok::<(), OrderStoreError>(()),
            Err(_) => Err::<(), OrderStoreError>(OrderStoreError::StoreUnavailable),
        }),
{
    match reply {
        Ok(_) => Ok(()),
        Err(_) => Err(OrderStoreError::StoreUnavailable),
    }
}

} // verus!
