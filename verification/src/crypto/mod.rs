//! Keys for a protected channel between two devices.

pub mod key_exchange;

pub use key_exchange::KeyExchange;
