//! A bidirectional codec for a delimiter-based text serialization format used
//! by a game-service backend, together with a decoder that turns whole
//! multi-part server replies into typed, cross-referenced collections of
//! records.

pub mod b64;
pub mod indexed;
pub mod model;
pub mod num;
pub mod record;
pub mod request;
pub mod response;
pub mod text;
pub mod user;
pub mod value;
