//! The adapters, one per platform. Each of them is plain logic and can
//! be used on any platform.

pub mod linux;
pub mod macos;
pub mod windows;
