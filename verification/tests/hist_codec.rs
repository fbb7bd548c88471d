use base64::Engine;
use std::io::Write;
use flood::codec::{decode_histogram, encode_histogram, recode_histogram, CodecError};
use flood::hist::{histogram_entries, histogram_total, new_histogram, record_nanos};

#[test]
fn small_values_are_recorded_exactly() {
    let mut h = new_histogram();
    record_nanos(&mut h, 100);
    record_nanos(&mut h, 100);
    record_nanos(&mut h, 42);
    // values this small have exact buckets at three significant digits
    assert_eq!(histogram_entries(&h), vec![(42, 1), (100, 2)]);
    assert_eq!(histogram_total(&h), 3);
}

#[test]
fn zero_duration_is_clamped_to_one() {
    let mut h = new_histogram();
    record_nanos(&mut h, 0);
    assert_eq!(histogram_entries(&h), vec![(1, 1)]);
}

#[test]
fn histogram_base64_round_trip_preserves_buckets() {
    let mut h = new_histogram();
    for v in [1u64, 1_000, 1_000, 250_000, 7_000_000_000, u64::MAX] {
        record_nanos(&mut h, v);
    }
    let text = encode_histogram(&h);
    let h2 = decode_histogram(&text).expect("the encoded text must decode");
    assert_eq!(histogram_entries(&h2), histogram_entries(&h));
    assert_eq!(histogram_total(&h2), histogram_total(&h));
}

#[test]
fn recode_restores_every_bucket() {
    let mut h = new_histogram();
    for i in 1..500u64 {
        record_nanos(&mut h, i * 1000);
    }
    let h2 = recode_histogram(&h);
    assert_eq!(histogram_entries(&h2), histogram_entries(&h));
}

#[test]
fn empty_histogram_round_trips() {
    let h = new_histogram();
    let h2 = recode_histogram(&h);
    assert_eq!(histogram_entries(&h2), Vec::<(u64, u64)>::new());
}

#[test]
fn decode_rejects_invalid_base64() {
    match decode_histogram("this is not base64!!!") {
        Err(e) => assert_eq!(e, CodecError::InvalidBase64),
        Ok(_) => panic!("junk text must not decode"),
    }
}

#[test]
fn decode_rejects_malformed_payload() {
    let junk = base64::engine::general_purpose::STANDARD.encode([1u8, 2, 3, 4, 5]);
    match decode_histogram(&junk) {
        Err(e) => assert_eq!(e, CodecError::MalformedHistogram),
        Ok(_) => panic!("junk bytes must not decode"),
    }
}

#[test]
fn encoding_differs_from_raw_bytes() {
    let mut h = new_histogram();
    record_nanos(&mut h, 123_456);
    let text = encode_histogram(&h);
    // the encoding is base64 text of a compressed payload, not the input
    assert!(!text.is_empty());
    assert!(text.is_ascii());
    assert!(!text.contains("123456"));
}

fn be32(v: u32) -> [u8; 4] {
    v.to_be_bytes()
}

/// A V2 envelope whose counts payload is the nine-byte varint of
/// `u64::MAX`, the one token the underlying deserializer mishandles.
fn poisoned_v2_payload() -> Vec<u8> {
    let mut inner: Vec<u8> = Vec::new();
    inner.extend_from_slice(&be32(0x1c849313)); // V2 cookie
    inner.extend_from_slice(&be32(9)); // payload length
    inner.extend_from_slice(&be32(0)); // normalizing offset
    inner.extend_from_slice(&be32(3)); // significant digits
    inner.extend_from_slice(&1u64.to_be_bytes()); // lowest discernible
    inner.extend_from_slice(&2u64.to_be_bytes()); // highest trackable
    inner.extend_from_slice(&1.0f64.to_be_bytes()); // integer/double ratio
    inner.extend_from_slice(&[0xFF; 9]); // the forbidden varint
    inner
}

#[test]
fn decode_refuses_the_varint_the_deserializer_mishandles() {
    let text = base64::engine::general_purpose::STANDARD.encode(poisoned_v2_payload());
    match decode_histogram(&text) {
        Err(e) => assert_eq!(e, CodecError::MalformedHistogram),
        Ok(_) => panic!("the poisoned payload must not decode"),
    }
}

#[test]
fn decode_refuses_the_compressed_variant_too() {
    let inner = poisoned_v2_payload();
    let mut encoder = flate2::write::ZlibEncoder::new(Vec::new(), flate2::Compression::default());
    encoder.write_all(&inner).unwrap();
    let compressed = encoder.finish().unwrap();
    let mut outer: Vec<u8> = Vec::new();
    outer.extend_from_slice(&be32(0x1c849314)); // V2 compressed cookie
    outer.extend_from_slice(&be32(compressed.len() as u32));
    outer.extend_from_slice(&compressed);
    let text = base64::engine::general_purpose::STANDARD.encode(outer);
    match decode_histogram(&text) {
        Err(e) => assert_eq!(e, CodecError::MalformedHistogram),
        Ok(_) => panic!("the poisoned payload must not decode"),
    }
}
