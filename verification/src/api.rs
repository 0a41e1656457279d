//! What the HTTP layer decides: which status and which body answer each
//! outcome of a store operation.

pub mod orders;
pub mod request;
pub mod response;
