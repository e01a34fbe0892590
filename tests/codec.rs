use perun_funds::amount::{decode_amount, encode_amount, AMOUNT_LEN};
use perun_funds::error::Error;

#[test]
fn encode_is_little_endian() {
    let bytes = encode_amount(0x0102);
    assert_eq!(bytes.len(), AMOUNT_LEN);
    assert_eq!(bytes[0], 0x02);
    assert_eq!(bytes[1], 0x01);
    assert!(bytes[2..].iter().all(|b| *b == 0));
}

#[test]
fn encode_matches_std_layout() {
    let v: u128 = 0x0123_4567_89ab_cdef_fedc_ba98_7654_3210;
    assert_eq!(encode_amount(v), v.to_le_bytes().to_vec());
}

#[test]
fn decode_reads_little_endian() {
    let mut data = vec![0u8; 16];
    data[0] = 100;
    data[1] = 1;
    assert_eq!(decode_amount(&data), Ok(356));
}

#[test]
fn round_trip_on_edge_values() {
    for v in [0u128, 1, 255, 256, 300, u64::MAX as u128, u128::MAX - 1, u128::MAX] {
        assert_eq!(decode_amount(&encode_amount(v)), Ok(v));
    }
}

#[test]
fn decode_rejects_wrong_lengths() {
    assert_eq!(decode_amount(&[]), Err(Error::Encoding));
    assert_eq!(decode_amount(&[0u8; 15]), Err(Error::Encoding));
    assert_eq!(decode_amount(&[0u8; 17]), Err(Error::Encoding));
    assert_eq!(decode_amount(&[0u8; 32]), Err(Error::Encoding));
}
