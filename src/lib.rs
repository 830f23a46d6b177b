//! Discovery and resolution of DNS-SD services over a callback-driven native
//! client, with the decisions of the adapter layer verified.

pub mod service;
pub mod fake;
pub mod marshal;
pub mod browse;
pub mod resolve;
pub mod wrapper;
