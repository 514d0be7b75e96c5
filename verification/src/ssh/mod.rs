pub mod availability;
pub mod commands;
pub mod opts;
pub mod runner;
