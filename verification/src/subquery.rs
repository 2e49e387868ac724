pub mod api;
pub mod config;
pub mod types;
