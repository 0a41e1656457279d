//! An order-management data layer: orders owned by users, each holding an
//! ordered list of line items, behind a storage contract with a verified
//! in-memory implementation.

pub mod api;
pub mod in_mem_order_store;
pub mod laws;
pub mod mongodb_order_store;
pub mod order_list;
pub mod order_store;
