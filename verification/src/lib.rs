//! Core of a game-metadata caching proxy: the filter-expression builder for
//! the upstream catalog, the session rules of its rate-limited client, and
//! the decisions of the cache-refill lookup.

pub mod clock;
pub mod error;
pub mod igdb;
pub mod models;
pub mod routes;
pub mod text;
pub mod views;
