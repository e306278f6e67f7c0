//! A coordinator for distributed transactions: the XA, TCC, Saga and
//! reliable-message patterns, their branch state machines, and the rules of the
//! recovery scheduler that drives each transaction to a terminal state.

pub mod config;
pub mod coordinator;
pub mod errors;
mod ids;
pub mod invoker;
pub mod laws;
pub mod payload;
pub mod processors;
pub mod responder;
pub mod scheduler;
pub mod state;
pub mod text;
pub mod transaction;
