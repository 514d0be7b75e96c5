pub mod filename;
pub mod remote_path;
