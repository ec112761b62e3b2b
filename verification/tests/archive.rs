use famo::archive::decode;
use famo::archive::encode;

#[test]
fn encode_and_decode() {
    let data = [1, 2, 3, 4, 5, 6, 7, 8];
    let encoded = encode(&data).unwrap();
    let decoded = decode(encoded.as_slice()).unwrap();

    assert_eq!(data, decoded.as_slice());
}

#[test]
fn encode_writes_a_gzip_stream() {
    let data = [1, 2, 3, 4, 5, 6, 7, 8];
    let encoded = encode(&data).unwrap();
    assert_ne!(encoded.as_slice(), &data[..]);
    assert_eq!(&encoded[..3], &[0x1f, 0x8b, 8]);
}

#[test]
fn encode_is_deterministic() {
    let data = b"the same bytes in, the same bytes out".to_vec();
    assert_eq!(encode(&data).unwrap(), encode(&data).unwrap());
}

#[test]
fn encode_and_decode_nothing() {
    let encoded = encode(&[]).unwrap();
    assert!(!encoded.is_empty());
    assert!(decode(&encoded).unwrap().is_empty());
}

#[test]
fn decode_rejects_what_is_no_gzip_stream() {
    assert!(decode(&[1, 2, 3, 4, 5, 6, 7, 8, 9, 10, 11, 12, 13, 14, 15, 16, 17, 18, 19, 20]).is_err());
}

#[test]
fn decode_rejects_a_truncated_stream() {
    let encoded = encode(b"some artifact bytes").unwrap();
    assert!(decode(&encoded[..encoded.len() - 4]).is_err());
}
