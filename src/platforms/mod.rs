//! The pure parts of the three platform protocols.
pub mod bluesky;
pub mod x;
pub mod threads;
