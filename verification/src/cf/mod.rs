//! Browser work: its configuration, the browser's launch and life, and the challenge solver.
pub mod browser;
pub mod config;
pub mod dom;
pub mod lifecycle;
pub mod solver;
