//! Conversion of table schemas between their in-memory form and the
//! protobuf messages that store them, with the reader/writer version
//! rules that keep stored schemas readable across releases.

pub mod compat;
pub mod schema;
pub mod pb;
pub mod convert;
pub mod laws;
pub mod shape;
