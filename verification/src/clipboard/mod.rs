pub mod adapter;
pub mod classify;
pub mod image;
pub mod snapshot;
