//! Client-side core of a length-framed binary protocol for a remote
//! graph/document database: wire codec (varint, primitives, document and
//! projection serialisation), versioned request encoding and response
//! decoding, and the state machines that drive the pooled, multiplexed
//! connections, paged result cursors, retries and live-query routing.

pub mod buffer;
pub mod codec_laws;
pub mod constants;
pub mod decoder;
pub mod cursor;
pub mod document;
pub mod encoder;
pub mod error;
pub mod live;
pub mod multiplex;
pub mod options;
pub mod parser;
pub mod pool;
pub mod projection;
pub mod serializer;
pub mod reader;
pub mod request;
pub mod response;
pub mod result;
pub mod rid;
pub mod session;
pub mod statement;
pub mod strutil;
pub mod value;
pub mod varint;
pub mod wire;
