//! Monitoring library for SimplifyDigging turtle clients: the packet model,
//! per-session state, the session registry, API response shapes and error
//! responses.

pub mod errors;
pub mod metrics;
pub mod models;
pub mod routes;
pub mod session_id;
pub mod websockets;
