pub mod command;
pub mod config;
pub mod deploy;
pub mod error;
pub mod logs;
pub mod response;
pub mod status;
pub mod subquery;
pub mod text;
