pub mod error;
pub mod session_mapper;
