//! What concerns the upstream catalog: the filter expressions it accepts,
//! the records it answers with and the session of the client that asks.

pub mod apicalypse;
pub mod client;
pub mod deserializers;
pub mod game;
pub mod models;
