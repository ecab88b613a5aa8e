use bytes::BytesMut;
use tokio_bincode::BinCodec;

#[test]
fn length_delimited_roundtrip_leaves_buffer_empty() {
    let mut codec = BinCodec::<String>::new_length_delimited();
    let mut buf = BytesMut::new();
    let message = String::from("hello world");
    codec.encode(message.clone(), &mut buf).unwrap();
    let got = codec.decode(&mut buf).unwrap();
    assert_eq!(got, Some(message));
    assert!(buf.is_empty());
}

#[test]
fn encode_prepends_big_endian_length_prefix() {
    let mut codec = BinCodec::<String>::new_length_delimited();
    let mut buf = BytesMut::new();
    let message = String::from("hello world");
    codec.encode(message.clone(), &mut buf).unwrap();

    let blob = bincode::serialize(&message).unwrap();
    let prefix = (blob.len() as u32).to_be_bytes();
    assert_eq!(&buf[..4], &prefix);
    assert_eq!(&buf[4..], &blob[..]);
}

#[test]
fn large_payload_arrives_across_many_fills() {
    let mut codec = BinCodec::<Vec<u8>>::new_length_delimited();
    let mut out = BytesMut::new();
    let payload: Vec<u8> = (0..1_000_000u32).map(|i| (i % 251) as u8).collect();
    codec.encode(payload.clone(), &mut out).unwrap();
    let wire = out.to_vec();

    // deliver the encoded bytes in arbitrary chunks; every decode before
    // the last one reports "no message yet"
    let mut buf = BytesMut::new();
    let mut got: Option<Vec<u8>> = None;
    for (i, chunk) in wire.chunks(4096).enumerate() {
        buf.extend_from_slice(chunk);
        let step = codec.decode(&mut buf).unwrap();
        if (i + 1) * 4096 < wire.len() {
            assert!(step.is_none());
        } else {
            got = step;
        }
    }
    assert_eq!(got, Some(payload));
    assert!(buf.is_empty());

    // the stream carries on with the next message
    let mut buf2 = BytesMut::new();
    codec.encode(vec![42, 43], &mut buf2).unwrap();
    let next = codec.decode(&mut buf2).unwrap();
    assert_eq!(next, Some(vec![42, 43]));
}

#[test]
fn incomplete_length_prefix_is_not_consumed() {
    let mut codec = BinCodec::<u32>::new_length_delimited();
    let mut buf = BytesMut::new();
    buf.extend_from_slice(&[0, 0]);
    let got = codec.decode(&mut buf).unwrap();
    assert!(got.is_none());
    assert_eq!(&buf[..], &[0, 0]);
}

#[test]
fn message_completes_after_prefix_was_absorbed() {
    let mut codec = BinCodec::<(u8, u8, u8, u8, u8)>::new_length_delimited();
    let value = (1u8, 2u8, 3u8, 4u8, 5u8);
    let blob = bincode::serialize(&value).unwrap();
    assert_eq!(blob.len(), 5);

    let mut buf = BytesMut::new();
    buf.extend_from_slice(&5u32.to_be_bytes());
    buf.extend_from_slice(&blob[..2]);
    let got = codec.decode(&mut buf).unwrap();
    assert!(got.is_none());

    buf.extend_from_slice(&blob[2..]);
    let got = codec.decode(&mut buf).unwrap();
    assert_eq!(got, Some(value));
    assert!(buf.is_empty());
}

#[test]
fn oversized_frame_prefix_is_a_framing_error() {
    let mut codec = BinCodec::<Vec<u8>>::new_length_delimited();
    let mut buf = BytesMut::new();
    // declares a frame larger than the default eight-mebibyte maximum
    buf.extend_from_slice(&(9 * 1024 * 1024u32).to_be_bytes());
    let err = codec.decode(&mut buf).unwrap_err();
    assert!(err.is_framing());
    // the invalid prefix was rejected before anything was consumed
    assert_eq!(buf.len(), 4);
}

#[test]
fn oversized_payload_is_a_framing_error_and_appends_nothing() {
    let mut codec = BinCodec::<Vec<u8>>::new_length_delimited();
    let mut buf = BytesMut::new();
    let payload = vec![0u8; 9 * 1024 * 1024];
    let err = codec.encode(payload, &mut buf).unwrap_err();
    assert!(err.is_framing());
    assert!(buf.is_empty());
}

#[test]
fn corrupt_frame_contents_are_a_serialization_error() {
    let mut codec = BinCodec::<bool>::new_length_delimited();
    let mut buf = BytesMut::new();
    buf.extend_from_slice(&1u32.to_be_bytes());
    buf.extend_from_slice(&[7]);
    let err = codec.decode(&mut buf).unwrap_err();
    assert!(err.is_serialization());
}

#[test]
fn custom_builder_sets_the_prefix_width() {
    let mut builder = tokio_util::codec::LengthDelimitedCodec::builder();
    builder.length_field_length(2);
    #[allow(deprecated)]
    let config = bincode::config().clone();
    let mut codec = BinCodec::<u16>::with_config_length_delimited(config, &mut builder);

    let mut buf = BytesMut::new();
    codec.encode(513, &mut buf).unwrap();
    // two-byte big-endian prefix, then the two-byte message
    assert_eq!(&buf[..], &[0, 2, 1, 2]);
    let got = codec.decode(&mut buf).unwrap();
    assert_eq!(got, Some(513));
    assert!(buf.is_empty());
}
