//! The SocketCAN back end: identities, link configuration, frames and failures.

pub mod adapter;
pub mod channel;
pub mod configure;
pub mod fault;
pub mod frame;
pub mod identity;
pub mod kernel;
pub mod laws;
pub mod lease;
pub mod link;
