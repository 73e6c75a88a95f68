//! Core of a message broker: a layered configuration resolver and a
//! metrics instrumentation layer with a typed event facade.

pub mod registry;
pub mod tally;
mod sink;
pub mod ids;
pub mod facade;
pub mod sources;
pub mod checks;
pub mod config;
pub mod identity;
pub mod laws;
