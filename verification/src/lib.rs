pub mod args;
pub mod target;
