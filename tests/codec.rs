use katana_genesis::codec::{CodecError, Compress, Decompress};
use katana_genesis::genesis::ContractAddress;
use starknet_core::types::Felt;

#[test]
fn u64_round_trips() {
    for v in [0u64, 1, 127, 128, 300, 16384, u64::MAX / 3, u64::MAX] {
        assert_eq!(u64::decompress(&v.compress()), Ok(v));
    }
}

#[test]
fn u64_bytes_are_varints() {
    assert_eq!(0u64.compress(), vec![0]);
    assert_eq!(127u64.compress(), vec![127]);
    assert_eq!(300u64.compress(), vec![0xac, 0x02]);
    assert_eq!(u64::MAX.compress(), vec![0xff, 0xff, 0xff, 0xff, 0xff, 0xff, 0xff, 0xff, 0xff, 0x01]);
}

#[test]
fn u64_rejects_corruption() {
    assert!(matches!(u64::decompress(&[]), Err(CodecError::Decompress(_))));
    assert!(u64::decompress(&[0x80]).is_err());
    assert!(u64::decompress(&[0xac]).is_err());
    assert!(u64::decompress(&[0xff, 0xff, 0xff, 0xff, 0xff, 0xff, 0xff, 0xff, 0xff, 0x02]).is_err());
    assert!(u64::decompress(&[0xff; 11]).is_err());
    assert_eq!(u64::decompress(&[0xac, 0x02, 0x09]), Ok(300));
}

#[test]
fn felt_round_trips() {
    for f in [Felt::ZERO, Felt::ONE, Felt::from(666u64), Felt::MAX] {
        assert_eq!(Felt::decompress(&f.compress()), Ok(f));
    }
}

#[test]
fn felt_bytes_are_length_and_big_endian() {
    let mut expected = vec![32u8];
    expected.extend_from_slice(&[0u8; 30]);
    expected.extend_from_slice(&[0x02, 0x9a]);
    assert_eq!(Felt::from(666u64).compress(), expected);
}

#[test]
fn felt_rejects_corruption() {
    let bytes = Felt::from(666u64).compress();
    for k in 0..bytes.len() {
        assert!(Felt::decompress(&bytes[..k]).is_err());
    }
    let mut wrong_length = bytes.clone();
    wrong_length[0] = 31;
    assert!(Felt::decompress(&wrong_length).is_err());
    let mut flipped = bytes.clone();
    flipped[32] ^= 0xff;
    assert_eq!(Felt::decompress(&flipped), Ok(Felt::from(0x0265u64)));
}

#[test]
fn contract_address_round_trips() {
    let address = ContractAddress(Felt::from(123456u64));
    let bytes = address.compress();
    assert_eq!(bytes, Felt::from(123456u64).compress());
    assert_eq!(ContractAddress::decompress(&bytes), Ok(address));
    assert!(ContractAddress::decompress(&bytes[..10]).is_err());
}
