pub mod aggregate_registry;
pub mod config;
pub mod text;
