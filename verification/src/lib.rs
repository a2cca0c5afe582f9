//! Byte-order conversion for fixed-width integers and byte buffers.

pub mod octets;
pub mod pattern;
pub mod mirror;
pub mod converter;

pub use converter::Converter;
