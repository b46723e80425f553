//! The two tables of the store, and what is written to them.

pub mod games;
pub mod queries;
pub mod tags;
