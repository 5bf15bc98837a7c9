//! A tunnel that carries one byte stream over a multiplexed, encrypted
//! transport: the decisions of its session manager, verified.

pub mod locator;
pub mod bridge;
pub mod session;
pub mod transport;
pub mod trust;
