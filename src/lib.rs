//! Value-conservation and participant-authorization checks for the funds
//! records of a payment channel, with the client-side funding agreement and
//! transaction-shape builders that produce transitions those checks accept.
pub mod amount;
pub mod error;
pub mod validator;
pub mod owner;
pub mod funding;
pub mod transaction;
