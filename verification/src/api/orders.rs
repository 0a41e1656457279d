//! The answers to the five requests on orders.
//!
//! Each request is answered in two steps: the store is asked, and what it
//! returned is turned into a status and, for some requests, a body. The
//! second step is a function of the store's result alone (`*_response`);
//! the functions named after the requests do both steps on a store.

use vstd::prelude::*;
use crate::api::request::AddItem;
use crate::api::response::{shows, Order};
use crate::order_list::views;
use crate::order_store;
use crate::order_store::{OrderStore, OrderStoreError};

verus! {

/// The user on whose behalf every request is made.
pub const USER_ID: u128 = 0x5afb91d8_555d_45d7_a517_ece1b6655b42;

/// Status of a request that succeeded and has a body.
pub const OK: u16 = 200;

/// Status of a request that created an order.
pub const CREATED: u16 = 201;

/// Status of a request that succeeded and has no body.
pub const NO_CONTENT: u16 = 204;

/// Status of a request for an order that does not exist.
pub const NOT_FOUND: u16 = 404;

/// Status of a request that the store could not serve.
pub const INTERNAL_SERVER_ERROR: u16 = 500;

/// The status that answers a failed request: an order that was not found
/// is `NOT_FOUND`, every other failure `INTERNAL_SERVER_ERROR`.
pub open spec fn failure_status(e: OrderStoreError) -> u16 {
    match e {
        OrderStoreError::OrderNotFound(_) => NOT_FOUND,
        _ => INTERNAL_SERVER_ERROR,
    }
}

/// The status that answers a request without a body in its answer.
pub open spec fn update_status(result: Result<(), OrderStoreError>) -> u16 {
    match result {
        Ok(_) => NO_CONTENT,
        Err(e) => failure_status(e),
    }
}

/// Whether the bodies `bodies` show the orders `orders`, one for one.
pub open spec fn show_all(bodies: Seq<Order>, orders: Seq<order_store::OrderView>) -> bool {
    &&& bodies.len() == orders.len()
    &&& forall|k: int| 0 <= k < bodies.len() ==> shows(#[trigger] bodies[k], orders[k])
}

fn status_of(e: OrderStoreError) -> (status: u16)
    ensures
        status == failure_status(e),
{
    match e {
        OrderStoreError::OrderNotFound(_) => NOT_FOUND,
        _ => INTERNAL_SERVER_ERROR,
    }
}

/// The answer to a request to create an order: `CREATED` with the new
/// order, or `INTERNAL_SERVER_ERROR` without a body, whatever the failure.
pub fn create_response(result: Result<order_store::Order, OrderStoreError>) -> (r: (
    u16,
    Option<Order>,
))
    ensures
        match result {
            Ok(order) => r.0 == CREATED && (r.1 matches Some(body) && shows(body, order@)),
            Err(_) => r.0 == INTERNAL_SERVER_ERROR && r.1 is None,
        },
{
    match result {
        Ok(order) => (CREATED, Some(Order::from(order))),
        Err(_) => (INTERNAL_SERVER_ERROR, None),
    }
}

/// The answer to a request to list the orders: `OK` with all of them in
/// their order, or `INTERNAL_SERVER_ERROR` without a body, whatever the
/// failure.
pub fn list_response(result: Result<Vec<order_store::Order>, OrderStoreError>) -> (r: (
    u16,
    Option<Vec<Order>>,
))
    ensures
        match result {
            Ok(orders) => r.0 == OK && (r.1 matches Some(bodies) && show_all(
                bodies@,
                views(orders@),
            )),
            Err(_) => r.0 == INTERNAL_SERVER_ERROR && r.1 is None,
        },
{
    match result {
        Ok(orders) => {
            let mut bodies: Vec<Order> = Vec::new();
            let mut i: usize = 0;
            while i < orders.len()
                invariant
                    i <= orders.len(),
                    show_all(bodies@, views(orders@).take(i as int)),
                decreases orders.len() - i,
            {
                let body = Order::from(orders[i].clone());
                bodies.push(body);
                i += 1;
            }
            assert(views(orders@).take(i as int) =~= views(orders@));
            (OK, Some(bodies))
        },
        Err(_) => (INTERNAL_SERVER_ERROR, None),
    }
}

/// The answer to a request for one order: `OK` with the order, `NOT_FOUND`
/// without a body where the store did not find it, or
/// `INTERNAL_SERVER_ERROR` without a body on any other failure.
pub fn get_response(result: Result<order_store::Order, OrderStoreError>) -> (r: (
    u16,
    Option<Order>,
))
    ensures
        match result {
            Ok(order) => r.0 == OK && (r.1 matches Some(body) && shows(body, order@)),
            Err(e) => r.0 == failure_status(e) && r.1 is None,
        },
{
    match result {
        Ok(order) => (OK, Some(Order::from(order))),
        Err(e) => (status_of(e), None),
    }
}

/// The answer to a request to add an item: `NO_CONTENT`, `NOT_FOUND` where
/// the store did not find the order, or `INTERNAL_SERVER_ERROR` on any
/// other failure.
pub fn add_item_response(result: Result<(), OrderStoreError>) -> (status: u16)
    ensures
        status == update_status(result),
{
    match result {
        Ok(()) => NO_CONTENT,
        Err(e) => status_of(e),
    }
}

/// The answer to a request to delete an item: `NO_CONTENT`, `NOT_FOUND`
/// where the store did not find the order, or `INTERNAL_SERVER_ERROR` on
/// any other failure, a position without an item among them.
pub fn delete_item_response(result: Result<(), OrderStoreError>) -> (status: u16)
    ensures
        status == update_status(result),
{
    match result {
        Ok(()) => NO_CONTENT,
        Err(e) => status_of(e),
    }
}

/// Creates an order for `USER_ID` in the store `state` and answers with it.
pub fn create(state: &dyn OrderStore) -> (r: (u16, Option<Order>))
    ensures
        match r.1 {
            Some(body) => r.0 == CREATED && body.user_id == USER_ID && body.items@.len() == 0,
            None => r.0 == INTERNAL_SERVER_ERROR,
        },
{
    create_response(state.create_order(USER_ID))
}

/// Answers with the orders of `USER_ID` in the store `state`.
pub fn list(state: &dyn OrderStore) -> (r: (u16, Option<Vec<Order>>))
    ensures
        match r.1 {
            Some(bodies) => r.0 == OK && forall|k: int|
                0 <= k < bodies@.len() ==> (#[trigger] bodies@[k]).user_id == USER_ID,
            None => r.0 == INTERNAL_SERVER_ERROR,
        },
{
    list_response(state.list_orders(USER_ID))
}

/// Answers with the order `id` of the store `state`.
pub fn get(state: &dyn OrderStore, id: u128) -> (r: (u16, Option<Order>))
    ensures
        match r.1 {
            Some(body) => r.0 == OK && body.id == id,
            None => r.0 == NOT_FOUND || r.0 == INTERNAL_SERVER_ERROR,
        },
{
    get_response(state.get_order(id))
}

/// Adds the item of `request` to the order `id` of the store `state`.
pub fn add_item(state: &dyn OrderStore, id: u128, request: AddItem) -> (status: u16)
    ensures
        status == NO_CONTENT || status == NOT_FOUND || status == INTERNAL_SERVER_ERROR,
{
    add_item_response(state.add_item(id, request.product_id, request.quantity))
}

/// Deletes the item at position `index` from the order `id` of the store
/// `state`.
pub fn delete_item(state: &dyn OrderStore, id: u128, index: usize) -> (status: u16)
    ensures
        status == NO_CONTENT || status == NOT_FOUND || status == INTERNAL_SERVER_ERROR,
{
    delete_item_response(state.delete_item(id, index))
}

} // verus!
