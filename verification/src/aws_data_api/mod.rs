//! AWS Aurora Data API codecs: decoding result fields and encoding
//! parameters.
pub mod interval;
pub mod temporal;
pub mod field;
pub mod encode;
pub mod datetime;
pub mod geometry;
pub mod network;
pub mod document;
