pub mod custom_hostname;
pub mod dns;
pub mod email_routing;
pub mod zones;
