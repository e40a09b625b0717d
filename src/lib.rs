//! Authentication and genealogy-graph service logic: signed session tokens,
//! password checks, user rows, per-endpoint response decisions, and the
//! statements sent to the graph store.
pub mod graph;
pub mod handlers;
pub mod ids;
pub mod model;
pub mod oauth;
pub mod password;
pub mod token;
pub mod user_repo;
