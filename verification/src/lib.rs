//! Verified core of POW, a minimal PHP development workspace: PHP version
//! normalization and download-URL resolution, the `~/.pow` directory layout,
//! the configuration model, the pid-file format and the decisions that each
//! command takes.
pub mod text;
pub mod decimal;
pub mod error;
pub mod host;
pub mod php;
pub mod db;
pub mod config;
pub mod utils;
pub mod commands;
