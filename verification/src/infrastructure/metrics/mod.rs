//! The two metrics backends.

pub mod noop;
pub mod prometheus;
