pub mod create;
pub mod delay;
pub mod error;
pub mod just;
pub mod map;
pub mod throw;
