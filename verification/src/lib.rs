//! Verified core of the debate arena's storage layer.
pub mod text;
pub mod rolling_period;
pub mod search;
pub mod tags;
pub mod memory;
pub mod settings;
pub mod history;
pub mod license;
pub mod schema;
pub mod discussion;
pub mod seed;
