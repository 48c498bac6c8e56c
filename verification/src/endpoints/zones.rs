pub mod setting;
pub mod zone;
