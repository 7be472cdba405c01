//! USB 2.0 configuration and endpoint descriptors, encoded to their wire bytes.

pub mod address;
pub mod configuration;
pub mod desc;
pub mod endpoint;
pub mod num;

pub use address::{Direction, Endpoint};
