//! The decisions each `pow` command takes; the program performs the I/O
//! they call for.
pub mod db;
pub mod pid;
pub mod server;
pub mod shell;
pub mod status;
pub mod switch;
pub mod install;
pub mod list;
