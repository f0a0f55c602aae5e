//! Events of input devices.
pub mod mouse;
