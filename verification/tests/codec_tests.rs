use wasm_fib::codec::{decode_u64, decode_u64_payload, encode_u64, PayloadError};
use wasm_fib::status::ChildStatus;

#[test]
fn encode_is_little_endian() {
    assert_eq!(encode_u64(0x0102_0304_0506_0708), vec![8, 7, 6, 5, 4, 3, 2, 1]);
    assert_eq!(encode_u64(0), vec![0; 8]);
}

#[test]
fn decode_round_trips() {
    for value in [0u64, 1, 52, 9_227_465, u64::MAX] {
        assert_eq!(decode_u64(encode_u64(value)), Ok(value));
        assert_eq!(decode_u64_payload(&encode_u64(value)), Ok(value));
    }
}

#[test]
fn decode_rejects_wrong_lengths() {
    assert_eq!(decode_u64(vec![1, 2, 3]), Err(ChildStatus::RuntimeError));
    assert_eq!(decode_u64(vec![0; 9]), Err(ChildStatus::RuntimeError));
    assert_eq!(decode_u64(Vec::new()), Err(ChildStatus::RuntimeError));
    let err = decode_u64_payload(&[1, 2, 3]).unwrap_err();
    assert_eq!(err, PayloadError::WrongLength { len: 3 });
    assert_eq!(err.message(), "expected an 8-byte u64 payload, got 3 bytes");
}
