//! The framing codec itself.
//!
//! A `BinCodec` turns values of a caller-chosen serializable type into
//! bytes appended to an outgoing buffer, and bytes accumulated in an
//! incoming buffer back into values, under one of two framing strategies
//! fixed when the codec is built:
//!
//! - **raw framing**: a message's bytes are its serialization and nothing
//!   more; consecutive messages are simply concatenated, and the receiver
//!   relies on the format being self-describing to know where one value
//!   ends.  A message that has only partially arrived is indistinguishable
//!   from malformed data here, so a short buffer surfaces as a hard decode
//!   error rather than a "wait for more bytes" signal — a deliberate
//!   limitation of this strategy, fit only for messages that arrive as a
//!   single complete unit, and callers treat decode errors as stream-fatal.
//! - **length-delimited framing**: every message is prefixed with its
//!   byte length by a sub-framer, which buffers until the declared length
//!   has arrived; a message may therefore arrive split across many buffer
//!   fills.
//!
//! The message type never appears in the codec's fields; it is carried
//! only as a type marker, so one codec serves exactly one message type.

#![allow(deprecated)]

use vstd::prelude::*;
use core::marker::PhantomData;
use crate::buffer::{buf_advance, buf_bytes, buf_extend, buf_is_empty, buf_len, buf_reserve, buf_slice};
use crate::frame::{
    frame_codec_default, frame_codec_from_builder, frame_decode, frame_encode, framer_prefix,
};
use crate::reader::Reader;
use crate::serial::{
    config_default, deserialize_counted, deserialize_slice, io_error_to_serial, serialize_value,
    serialized_size_of,
};
use bincode::Config;
use bytes::BytesMut;
use tokio_util::codec::LengthDelimitedCodec;
use tokio_util::codec::length_delimited::Builder;

verus! {

/// Why an encode or decode call failed.
///
/// The codec never recovers internally: every error is handed back to the
/// driving runtime, which is expected to treat it as fatal for the stream.
/// Every error is wrapped in the serialization library's error type; the
/// variant says which stage raised it, so that contracts and callers can
/// tell a framing failure from a serialization failure.
#[derive(Debug)]
pub enum CodecError {
    /// The serialization library rejected the bytes during decode, or the
    /// value during encode.  Under raw framing a message that has not
    /// fully arrived also surfaces here.
    Serialization(bincode::Error),
    /// The length-prefix sub-framer rejected a frame: a corrupt or
    /// oversized length prefix on the way in, or a blob longer than the
    /// configured maximum frame size on the way out.  The sub-framer's
    /// I/O failure is carried inside the serialization library's error
    /// type, as its I/O variant.
    Framing(bincode::Error),
}

impl CodecError {
    /// True for a serialization error.
    pub fn is_serialization(&self) -> (r: bool)
        ensures
            r == (self is Serialization),
    {
        match self {
            CodecError::Serialization(_) => true,
            CodecError::Framing(_) => false,
        }
    }

    /// True for a framing error from the length-prefix sub-framer.
    pub fn is_framing(&self) -> (r: bool)
        ensures
            r == (self is Framing),
    {
        match self {
            CodecError::Serialization(_) => false,
            CodecError::Framing(_) => true,
        }
    }
}

/// A serialization-format based codec over a byte-stream transport,
/// generic over the message type it carries.
#[derive(Debug)]
pub struct BinCodec<T> {
    config: Config,
    lower: Option<LengthDelimitedCodec>,
    marker: PhantomData<T>,
}

impl<T> BinCodec<T> {
    /// True when this codec was built with the length-delimited strategy,
    /// in which case it owns a length-prefix sub-framer.
    pub closed spec fn is_length_delimited(self) -> bool {
        self.lower is Some
    }

    /// The serialization configuration this codec was built with, shared
    /// by all of its encode and decode calls.
    pub closed spec fn cfg(self) -> Config {
        self.config
    }

    /// The length-prefix sub-framer of a length-delimited codec.
    pub closed spec fn sub_framer(self) -> LengthDelimitedCodec
        recommends
            self.is_length_delimited(),
    {
        self.lower->Some_0
    }

    /// A codec with the default serialization configuration and raw
    /// framing.
    pub fn new() -> (r: Self)
        ensures
            !r.is_length_delimited(),
    {
        BinCodec::with_config(config_default())
    }

    /// A codec with the given serialization configuration and raw
    /// framing.  Invalid configuration values surface only later, on
    /// first use, as a serialization error.
    pub fn with_config(config: Config) -> (r: Self)
        ensures
            !r.is_length_delimited(),
            r.cfg() == config,
    {
        BinCodec { config, lower: None, marker: PhantomData }
    }

    /// A codec with the default serialization configuration and
    /// length-delimited framing through a default sub-framer.
    pub fn new_length_delimited() -> (r: Self)
        ensures
            r.is_length_delimited(),
    {
        BinCodec {
            config: config_default(),
            lower: Some(frame_codec_default()),
            marker: PhantomData,
        }
    }

    /// A codec with the given serialization configuration and
    /// length-delimited framing through a sub-framer built from
    /// `builder`, permitting custom prefix width, byte order and maximum
    /// frame size.
    pub fn with_config_length_delimited(config: Config, builder: &mut Builder) -> (r: Self)
        ensures
            r.is_length_delimited(),
            r.cfg() == config,
    {
        BinCodec {
            config,
            lower: Some(frame_codec_from_builder(builder)),
            marker: PhantomData,
        }
    }

    /// Tries to produce at most one message from the bytes accumulated in
    /// `buf`, removing from the front of `buf` exactly the bytes of the
    /// message it produced.
    ///
    /// Under raw framing, an empty buffer means "no message yet" and is
    /// the only such outcome: any other failure to read a value — be the
    /// bytes malformed or merely incomplete — is an error that leaves the
    /// buffer untouched.  Under length-delimited framing, "no message
    /// yet" is returned until the sub-framer has seen a whole frame, and
    /// the buffer is consumed from the front only, partly into the
    /// sub-framer's own state once a length prefix is complete.
    pub fn decode(&mut self, buf: &mut BytesMut) -> (r: Result<Option<T>, CodecError>) where
        T: serde::de::DeserializeOwned,

        ensures
            final(self).is_length_delimited() == old(self).is_length_delimited(),
            final(self).cfg() == old(self).cfg(),
            !old(self).is_length_delimited() ==> *final(self) == *old(self),
            buf_bytes(*final(buf)).is_suffix_of(buf_bytes(*old(buf))),
            !old(self).is_length_delimited() ==> {
                &&& buf_bytes(*old(buf)).len() == 0 ==> ((r matches Ok(None)) && buf_bytes(
                    *final(buf),
                ) == buf_bytes(*old(buf)))
                &&& r matches Ok(None) ==> buf_bytes(*old(buf)).len() == 0
                &&& r is Err ==> buf_bytes(*final(buf)) == buf_bytes(*old(buf))
                &&& r matches Err(e) ==> e is Serialization
            },
            old(self).is_length_delimited() ==> (r matches Err(e) ==> (e is Framing
                ==> buf_bytes(*final(buf)) == buf_bytes(*old(buf)))),
    {
        match &mut self.lower {
            None => {
                if buf_is_empty(buf) {
                    return Ok(None);
                }
                let contents = buf_slice(buf);
                let mut reader = Reader::new(contents);
                let (result, used) = deserialize_counted::<T>(&self.config, reader.rest());
                reader.advance(used);
                match result {
                    Ok(message) => {
                        let amount = reader.amount();
                        buf_advance(buf, amount);
                        proof {
                            assert(buf_bytes(*buf) =~= buf_bytes(*old(buf)).subrange(
                                amount as int,
                                buf_bytes(*old(buf)).len() as int,
                            ));
                        }
                        Ok(Some(message))
                    },
                    Err(e) => Err(CodecError::Serialization(e)),
                }
            },
            Some(lower) => {
                match frame_decode(lower, buf) {
                    Ok(Some(frame)) => {
                        let blob = buf_slice(&frame);
                        match deserialize_slice::<T>(&self.config, blob) {
                            Ok(message) => Ok(Some(message)),
                            Err(e) => Err(CodecError::Serialization(e)),
                        }
                    },
                    Ok(None) => Ok(None),
                    Err(e) => Err(CodecError::Framing(io_error_to_serial(e))),
                }
            },
        }
    }

    /// Appends the wire representation of `item` to the back of `buf`.
    ///
    /// Under raw framing the serialized bytes are appended verbatim, after
    /// reserving their exact size; under length-delimited framing the
    /// sub-framer appends a length prefix and then the serialized bytes.
    /// A failed call — an unrepresentable value, or a blob the sub-framer
    /// rejects as oversized — appends nothing.
    pub fn encode(&mut self, item: T, buf: &mut BytesMut) -> (r: Result<(), CodecError>) where
        T: serde::Serialize,

        ensures
            *final(self) == *old(self),
            r is Ok ==> buf_bytes(*old(buf)).is_prefix_of(buf_bytes(*final(buf))),
            (old(self).is_length_delimited() && r is Ok ==> exists|blob: Seq<u8>|
                buf_bytes(*final(buf)) == buf_bytes(*old(buf)) + #[trigger] framer_prefix(
                    old(self).sub_framer(),
                    blob.len() as int,
                ) + blob),
            r is Err ==> buf_bytes(*final(buf)) == buf_bytes(*old(buf)),
            r matches Err(e) ==> (!old(self).is_length_delimited() ==> e is Serialization),
    {
        match &mut self.lower {
            None => {
                let size = match serialized_size_of(&self.config, &item) {
                    Ok(s) => s,
                    Err(e) => {
                        return Err(CodecError::Serialization(e));
                    },
                };
                // the reservation is a capacity hint; it can only be made
                // when the predicted size keeps the buffer's capacity
                // arithmetic within usize
                let len = buf_len(buf);
                if size <= (usize::MAX - len) as u64 {
                    buf_reserve(buf, size as usize);
                }
                match serialize_value(&self.config, &item) {
                    Ok(message) => {
                        buf_extend(buf, message.as_slice());
                        proof {
                            assert(buf_bytes(*old(buf)) =~= buf_bytes(*buf).subrange(
                                0,
                                buf_bytes(*old(buf)).len() as int,
                            ));
                        }
                        Ok(())
                    },
                    Err(e) => Err(CodecError::Serialization(e)),
                }
            },
            Some(lower) => {
                match serialize_value(&self.config, &item) {
                    Ok(message) => {
                        let ghost blob: Seq<u8> = message@;
                        match frame_encode(lower, message, buf) {
                            Ok(_) => {
                                proof {
                                    assert(buf_bytes(*buf) == buf_bytes(*old(buf))
                                        + framer_prefix(old(self).sub_framer(), blob.len() as int)
                                        + blob);
                                }
                                Ok(())
                            },
                            Err(e) => Err(CodecError::Framing(io_error_to_serial(e))),
                        }
                    },
                    Err(e) => Err(CodecError::Serialization(e)),
                }
            },
        }
    }
}

impl<T> Default for BinCodec<T> {
    /// The same codec as `new`: default configuration, raw framing.
    fn default() -> (r: Self)
        ensures
            !r.is_length_delimited(),
    {
        BinCodec::new()
    }
}

} // verus!

