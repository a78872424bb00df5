//! Error types of the Miden processor and the source context that is attached
//! to them.

pub mod context;
pub mod errors;
pub mod host;
pub mod outside;
