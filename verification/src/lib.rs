//! Verified core of a single-board sensor node.
//!
//! The node samples an analog sensor, brings a wireless link up and serves
//! the latest reading over HTTP. This crate holds the decisions and the data
//! of that node as plain values with proved contracts; the firmware around it
//! performs the I/O and feeds the results back in.

pub mod bringup;
pub mod gauge;
pub mod metrics;
pub mod network;
pub mod routes;
pub mod sampler;
pub mod server;
