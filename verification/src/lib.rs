//! A FlareSolverr-compatible resolver: the rules, state and wire answers of the server.
pub mod cf;
pub mod chaser;
pub mod clock;
pub mod config;
pub mod cookies;
pub mod error;
pub mod fetcher;
pub mod flaresolverr;
pub mod logging;
pub mod metrics;
pub mod models;
pub mod session;
pub mod text;
