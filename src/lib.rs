pub mod config;
pub mod session;
pub mod telemetry;
pub mod wifi;
