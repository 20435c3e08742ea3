pub mod ids;
pub mod session;
