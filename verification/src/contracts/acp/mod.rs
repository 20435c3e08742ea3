pub mod file;
pub mod plan;
pub mod terminal;
