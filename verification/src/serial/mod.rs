//! Serial ports: identities, configurations and sessions.

pub mod adapter;
pub mod fault;
pub mod identity;
pub mod session;
