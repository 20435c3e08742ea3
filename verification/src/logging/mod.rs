pub mod clock;
pub mod zone;
