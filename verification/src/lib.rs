//! Verified decision logic of a hardware abstraction runtime.

pub mod error;
pub mod resource;
pub mod text;
pub mod shared_memory;
pub mod broker;
pub mod camera;
pub mod can;
pub mod pcan;
pub mod socketcan;
pub mod gpio;
pub mod usb;
pub mod serial;
pub mod windows_security;
