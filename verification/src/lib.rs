//! A broker-agnostic messaging abstraction.
//!
//! The crate holds the rules that every backend shares: the error
//! taxonomy, the inbound and outbound message models, subscription
//! matching and routing, and the decisions of the consume loop.

mod body;
pub mod consume;
pub mod dispatcher;
pub mod errors;
pub mod handler;
pub mod publisher;
pub mod registry;
pub mod text;
