//! The rules behind the service's read interface.

pub mod games;
