pub mod config;
pub mod supervisor;
pub mod trace;
