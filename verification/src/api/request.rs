//! Bodies of requests.

use vstd::prelude::*;

verus! {

/// The body of a request to add an item to an order.
pub struct AddItem {
    pub product_id: u128,
    pub quantity: i32,
}

} // verus!
