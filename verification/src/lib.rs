//! Client library for the binary request/response protocol of a Nanonis
//! scanning-probe-microscope controller.
//!
//! The core of the library is a verified message codec: an ordered list of
//! typed values is encoded into a contiguous byte body according to a list of
//! per-argument type codes, and a response body is decoded the same way. The
//! transaction engine frames one command round-trip (header, body, response
//! header, response body) over a TCP socket; every decision it takes is
//! verified, and only the socket operations themselves are trusted.

pub mod client;
pub mod codec;
pub mod codes;
pub mod decode;
pub mod encode;
pub mod error;
pub mod laws;
pub mod net;
pub mod types;
pub mod value;
pub mod wire;

pub use client::{build_request, interpret_response, ConnectionConfig, NanonisClient};
pub use codes::TypeCode;
pub use decode::decode_body;
pub use encode::encode_body;
pub use error::NanonisError;
pub use value::{chunk_rows, NanonisValue};
