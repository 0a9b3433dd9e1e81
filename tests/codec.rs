use netrun::codec::MAX_FRAME_LEN;
use netrun::{compress, decompress, deserialize, serialize, CodecError};

fn users_json() -> String {
    let user = "{\"age\":55,\"height\":1.9,\"name\":\"Roma\"}";
    let users: Vec<&str> = vec![user; 100];
    format!("[{}]", users.join(","))
}

#[test]
fn test_compress() {
    let string = users_json();

    let ser = serialize(&string);

    assert_eq!(string.len(), 3801);
    assert_eq!(ser.len(), 69);

    let de = deserialize(&ser).unwrap();

    assert_eq!(string, de);
}

#[test]
fn round_trip_keeps_text() {
    for text in ["", "55", "0.0042", "{\"a\":666,\"b\":\"aaaa\"}", "héllo wörld ✓"] {
        assert_eq!(deserialize(&serialize(text)).unwrap(), text);
    }
}

#[test]
fn frame_starts_with_length_header() {
    let frame = serialize("hello");
    assert_eq!(&frame[..4], &[5, 0, 0, 0]);
    assert_ne!(frame, b"hello".to_vec());
}

#[test]
fn compress_then_decompress_gives_bytes_back() {
    let data: Vec<u8> = (0..300u32).map(|i| (i % 7) as u8).collect();
    let packed = compress(&data);
    assert!(packed.len() < data.len());
    assert!(packed.len() <= 24 + data.len() * 110 / 100);
    assert_eq!(&packed[..4], &[44, 1, 0, 0]);
    assert_eq!(decompress(&packed).unwrap(), data);
}

#[test]
fn short_frame_is_refused() {
    assert!(matches!(decompress(&[1, 2]), Err(CodecError::Decompress(_))));
    assert!(matches!(deserialize(&[]), Err(CodecError::Decompress(_))));
}

#[test]
fn corrupt_frame_is_refused() {
    // declares 255 bytes, holds a literal run that overruns the input
    let frame = [255u8, 0, 0, 0, 0xF0];
    let err = deserialize(&frame).unwrap_err();
    assert!(matches!(err, CodecError::Decompress(_)));
    assert!(!err.message().is_empty());
}

#[test]
fn bytes_that_are_not_utf8_are_refused() {
    let frame = compress(&[0xff, 0xfe, 0x41]);
    let err = deserialize(&frame).unwrap_err();
    assert!(matches!(err, CodecError::NotUtf8(_)));
    assert!(err.message().contains("utf-8"));
}

#[test]
fn frame_over_the_limit_is_refused_unread() {
    let frame = vec![0xffu8; MAX_FRAME_LEN + 1];
    assert_eq!(decompress(&frame), Err(CodecError::TooLarge));
    assert_eq!(deserialize(&frame), Err(CodecError::TooLarge));
    assert_eq!(CodecError::TooLarge.message(), "frame too large to decode");
}

#[test]
fn utf8_error_keeps_decoder_words() {
    let frame = compress(&[0xff, 0xfe, 0x41]);
    assert_eq!(
        deserialize(&frame),
        Err(CodecError::NotUtf8("invalid utf-8 sequence of 1 bytes from index 0".to_string()))
    );
}

#[test]
fn decompress_error_keeps_decompressor_words() {
    let frame = [255u8, 0, 0, 0, 0xF0];
    assert_eq!(
        deserialize(&frame),
        Err(CodecError::Decompress("expected another byte, found none".to_string()))
    );
}

#[test]
fn incompressible_input_stays_within_block_bound() {
    let data: Vec<u8> = (0..1000u32).map(|i| (i.wrapping_mul(2654435761) >> 13) as u8).collect();
    let packed = compress(&data);
    assert!(packed.len() <= 24 + data.len() * 110 / 100);
    assert_eq!(decompress(&packed).unwrap(), data);
}
