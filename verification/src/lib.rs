//! A typed client binding for a payment API's subscription and usage-record
//! endpoints. Request parameters are encoded into key/value pairs and URL
//! paths by verified functions; the HTTP transport itself lives outside the
//! library.

pub mod digits;
pub mod encode;
pub mod params;
pub mod request;
pub mod subscription;
