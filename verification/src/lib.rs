//! Frame layer of an HTTP/2-style protocol: a codec for the nine-byte frame
//! header and its payload, the SETTINGS payload codec, a HEADERS frame builder
//! and a reassembler that cuts a chunked byte stream into whole frames.
//!
//! Every function states its result over a mathematical model of the wire
//! format (`Seq<u8>` and spec functions); the laws that relate encoding and
//! decoding are public proof functions next to the code they speak of.

pub mod error;
pub mod wire;
pub mod frame;
pub mod utils;
pub mod settings;
pub mod headers;
pub mod http2;
