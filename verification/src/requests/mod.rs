//! The payloads of write requests.

pub mod request_city;
