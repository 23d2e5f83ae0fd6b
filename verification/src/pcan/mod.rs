//! The PCAN-Basic back end: identities, timings, messages and driver errors.

pub mod adapter;
pub mod channel;
pub mod device;
pub mod driver_error;
pub mod identity;
pub mod message;
pub mod open;
pub mod timing;
