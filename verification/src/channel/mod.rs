//! Channels that share one transport.
pub mod id;

pub use id::{ForkHandle, IdChannel};
