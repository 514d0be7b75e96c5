pub mod detect;
