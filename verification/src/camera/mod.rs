//! Camera formats, capture decisions and the native camera back ends.

pub mod avfoundation;
pub mod backend;
pub mod claims;
pub mod frame;
pub mod frame_format;
pub mod mediafoundation;
pub mod session;
pub mod v4l2;
pub mod wait;
