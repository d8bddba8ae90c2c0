//! Core of an e-commerce order-settlement service.
//!
//! The library turns a submitted cart into a priced invoice with exact
//! fixed-point money arithmetic, assembles and persists the order aggregate,
//! drives a pluggable payment gateway, and feeds progress events to a FIFO
//! notifier.  Every function is verified against its contract; the only
//! trusted items are two thin wrappers around the random-number generator.

pub mod accounts;
pub mod catalog;
pub mod config;
pub mod ecommerce;
pub mod money;
pub mod notifier;
pub mod payment_processing;
pub mod request;
pub mod settlement;
pub mod store;
mod rng;
