pub mod aggregate;
pub mod config;
pub mod metrics;
pub mod probe;
pub mod ratio;
pub mod recorder;
pub mod score;
