//! Verified core of the Fluss REST gateway.
pub mod backend;
pub mod config;
pub mod metrics;
pub mod pool;
pub mod resilience;
pub mod server;
pub mod text;
pub mod types;
