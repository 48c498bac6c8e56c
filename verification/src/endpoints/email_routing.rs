pub mod addresses;
pub mod dns;
pub mod routing;
pub mod rules;
