pub mod errors;
pub mod guard;
pub mod service;
