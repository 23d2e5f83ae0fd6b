//! A bounded ring of camera frames in a named shared-memory region.

pub mod bytes;
pub mod layout;
pub mod mapping;
pub mod config;
pub mod slots;
pub mod header;
pub mod ring;
pub mod reader;
pub mod laws;
pub mod platform;
