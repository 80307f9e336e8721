//! A catalog of planets, each shown with the number of films it appears in.
//!
//! The planets are kept by a store; the film counts come from a film
//! service and are remembered for a limited time. This library holds the
//! rules of the catalog: how a film count is derived from what the film
//! service answers, when the service is asked at all, how the answers are
//! joined to the planets of a listing in the order of the store, and what
//! is handed to the store to create or delete a planet.

pub mod errors;
pub mod text;
pub mod domain;
pub mod cache;
pub mod processor;
pub mod films;
pub mod reader;
pub mod writer;
pub mod handlers;
pub mod dirs;
pub mod cli;
