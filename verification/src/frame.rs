//! Trusted boundary to the length-prefix sub-framer.
//!
//! Under length-delimited framing the codec delegates "is a complete
//! frame present yet?" to `tokio_util::codec::LengthDelimitedCodec`: on
//! the way out it prepends each blob with its length, on the way in it
//! strips a length prefix and hands back exactly one blob once all of its
//! bytes have arrived.  The sub-framer keeps private state between calls
//! (a length prefix it has read whose payload has not yet arrived), so
//! the contracts here state only what holds of every outcome: the buffer
//! is consumed from the front only, a returned frame is a contiguous run
//! of the bytes that were in the buffer, and a failed call leaves the
//! buffer as it was.

use vstd::prelude::*;
use crate::buffer::buf_bytes;
use bytes::BytesMut;
use tokio_util::codec::LengthDelimitedCodec;
use tokio_util::codec::length_delimited::Builder;

verus! {

#[verifier::external_type_specification]
#[verifier::external_body]
pub struct ExLengthDelimitedCodec(LengthDelimitedCodec);

#[verifier::external_type_specification]
#[verifier::external_body]
pub struct ExBuilder(Builder);

#[verifier::external_type_specification]
#[verifier::external_body]
pub struct ExIoError(std::io::Error);

/// Relies on tokio_util::codec::LengthDelimitedCodec::new: a sub-framer
/// with the default prefix width, byte order and maximum frame size.
#[verifier::external_body]
pub(crate) fn frame_codec_default() -> LengthDelimitedCodec {
    LengthDelimitedCodec::new()
}

/// Relies on tokio_util::codec::length_delimited::Builder::new_codec: a
/// sub-framer with the builder's prefix width, byte order and maximum
/// frame size.
#[verifier::external_body]
pub(crate) fn frame_codec_from_builder(builder: &mut Builder) -> LengthDelimitedCodec {
    builder.new_codec()
}

/// Relies on LengthDelimitedCodec's decode: tries to extract one
/// length-prefixed frame from the front of `src`.
///
/// Its source shows that `src` is only ever consumed from the front, in
/// two steps that may fall in different calls: the length prefix is
/// dropped as soon as it is complete (and remembered in the sub-framer's
/// private state), and the payload is split off once all of its bytes are
/// present.  A prefix that is invalid — it declares a frame beyond the
/// configured maximum, or one whose adjusted length overflows — is
/// reported before anything is consumed.
#[verifier::external_body]
pub(crate) fn frame_decode(
    codec: &mut LengthDelimitedCodec,
    src: &mut BytesMut,
) -> (r: Result<Option<BytesMut>, std::io::Error>)
    ensures
        buf_bytes(*final(src)).is_suffix_of(buf_bytes(*old(src))),
        (r matches Ok(Some(frame)) ==> exists|h: int|
            0 <= h && h + buf_bytes(frame).len() <= buf_bytes(*old(src)).len()
                && buf_bytes(frame) == #[trigger] buf_bytes(*old(src)).subrange(
                h,
                h + buf_bytes(frame).len() as int,
            ) && buf_bytes(*final(src)) == buf_bytes(*old(src)).skip(
                h + buf_bytes(frame).len() as int,
            )),
        (r matches Ok(None) ==> exists|h: int|
            0 <= h <= buf_bytes(*old(src)).len() && buf_bytes(*final(src)) == #[trigger] buf_bytes(
                *old(src),
            ).skip(h)),
        r is Err ==> buf_bytes(*final(src)) == buf_bytes(*old(src)),
{
    tokio_util::codec::Decoder::decode(codec, src)
}

/// The length prefix the sub-framer writes ahead of a payload of the
/// given byte length: a deterministic function of the sub-framer's
/// configuration (prefix width, byte order, length adjustment) and of
/// that length alone.
pub uninterp spec fn framer_prefix(codec: LengthDelimitedCodec, len: int) -> Seq<u8>;

/// Relies on LengthDelimitedCodec's encode: appends a length prefix
/// followed by `data` itself to the back of `dst`.
///
/// Its source shows that on success `dst` grows by exactly the prefix —
/// the bytes named by `framer_prefix`, fixed by the sub-framer's
/// configuration and the payload length — and then the payload verbatim;
/// that a rejected payload — longer than the configured maximum frame
/// size, or overflowing after adjustment — leaves `dst` as it was; and
/// that the sub-framer itself is only read, never changed.
#[verifier::external_body]
pub(crate) fn frame_encode(
    codec: &mut LengthDelimitedCodec,
    data: Vec<u8>,
    dst: &mut BytesMut,
) -> (r: Result<(), std::io::Error>)
    ensures
        *final(codec) == *old(codec),
        r is Ok ==> buf_bytes(*old(dst)).is_prefix_of(buf_bytes(*final(dst))),
        r is Ok ==> buf_bytes(*final(dst)) == buf_bytes(*old(dst)) + framer_prefix(
            *old(codec),
            data@.len() as int,
        ) + data@,
        r is Err ==> buf_bytes(*final(dst)) == buf_bytes(*old(dst)),
{
    tokio_util::codec::Encoder::encode(codec, bytes::Bytes::from(data), dst)
}

} // verus!
