//! General-purpose input and output lines.

pub mod linux;
pub mod session;
pub mod windows;
