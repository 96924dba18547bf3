//! A gateway in front of a random-value generator service.
//!
//! The library holds the logic of a two-tier system: a backend that produces
//! random numbers and strings on request, and a gateway that forwards inbound
//! requests to that backend over a single, lazily established connection.
//! The generation rules, the translation of inbound parameters, the
//! classification of upstream failures and the connection lifecycle are all
//! stated in contracts; the surrounding network plumbing lives outside.

pub mod charset;
pub mod connection;
pub mod generator;
pub mod handler;
pub mod messages;
pub mod translate;
