//! Application layer protocols.
pub mod http;
pub mod ntp;
pub mod text;
