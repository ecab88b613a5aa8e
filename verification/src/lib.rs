//! A framing codec that carries serialized values over a raw byte stream.
//!
//! The codec turns an in-memory value into bytes appended to an outgoing
//! buffer, and bytes accumulated in an incoming buffer back into a value,
//! under one of two framing strategies chosen at construction time:
//!
//! - raw framing, which relies on the serialization format itself being
//!   self-describing to delimit consecutive messages, and
//! - length-delimited framing, which prefixes every message with its byte
//!   length so that a message may arrive split across many buffer fills.

pub mod buffer;
pub mod codec;
pub mod frame;
pub mod reader;
pub mod serial;

pub use codec::BinCodec;
pub use codec::CodecError;
pub use reader::Reader;
