//! Session-management core for an OPC UA-style tag client: a typed value
//! model, node-address parsing, a bounded FIFO write queue, connection
//! lifecycle with automatic-recovery decisions, and a notification
//! dispatcher. Network transport, the async runtime and the HTTP surface
//! live outside this crate; every decision this layer makes is verified.

pub mod address;
pub mod constants;
pub mod dispatch;
pub mod http_api;
pub mod queue;
pub mod reactions;
pub mod service;
pub mod strings;
pub mod time;
pub mod value;
