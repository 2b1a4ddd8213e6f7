//! Safe, verified wrappers around the snappy block codec.
pub mod command;
pub mod native;
pub mod snappy;
