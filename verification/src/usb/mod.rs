//! Universal Serial Bus devices: identities and transfers.

pub mod adapter;
pub mod identity;
pub mod transfer;
