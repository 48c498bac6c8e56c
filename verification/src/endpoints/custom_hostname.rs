pub mod certificate;
pub mod fallback_origin;
pub mod hostname;
