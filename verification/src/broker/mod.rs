//! The decisions of the broker: what it is built from, whom it serves, and which token it accepts.

pub mod manifest;
pub mod runtime;
pub mod serve;
pub mod token;
pub mod windows_token;
