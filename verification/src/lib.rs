//! Decision logic of the contract registry backend: source verification of
//! deployed contracts, and the subscription / notification / webhook endpoints,
//! each expressed as a verified plan that an I/O layer executes.

pub mod digest;
pub mod exchange;
pub mod handlers;
pub mod model;
pub mod text;
pub mod source_verification;
