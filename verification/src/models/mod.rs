//! The shapes in which the service describes its resources.
pub mod common;
pub mod events;
