//! Clipship core: the rules and decisions behind a clipboard uploader that
//! copies the first file or image of the clipboard to a remote host over
//! `ssh`/`scp` (or to a local directory) and puts the resulting path back on
//! the clipboard.
pub mod text;
pub mod naming;
pub mod config;
pub mod clipboard;
pub mod ssh;
pub mod notify;
pub mod upload;
pub mod paste;
pub mod shortcut;
pub mod test_connection;
pub mod cleanup;
pub mod commands;
