//! Field elements, balances and the cryptographic primitives of the chain.
use starknet_core::types::Felt;
use vstd::prelude::*;

verus! {

#[verifier::external_type_specification]
#[verifier::external_body]
pub struct ExFelt(starknet_core::types::Felt);

#[verifier::external_type_specification]
#[verifier::external_body]
pub struct ExUint<const BITS: usize, const LIMBS: usize>(alloy_primitives::Uint<BITS, LIMBS>);

/// Relies on the `Clone` impl that `Felt` derives beside `Copy`: a clone is the same value.
pub assume_specification[ <starknet_core::types::Felt as std::clone::Clone>::clone ](
    f: &starknet_core::types::Felt,
) -> (r: starknet_core::types::Felt)
    ensures
        r == *f,
;

/// Relies on the `PartialEq` impl that `Felt` derives: elements are kept reduced, so
/// two are equal exactly when they are the same element.
pub assume_specification[ <starknet_core::types::Felt as std::cmp::PartialEq>::eq ](
    a: &starknet_core::types::Felt,
    b: &starknet_core::types::Felt,
) -> (r: bool)
    ensures
        r == (*a == *b),
;

/// Identifier of a contract class.
pub type ClassHash = Felt;

/// Key of a contract storage slot.
pub type StorageKey = Felt;

/// Value of a contract storage slot.
pub type StorageValue = Felt;

/// The field element whose big-endian bytes are `bytes`, reduced modulo the field prime.
pub uninterp spec fn felt_of_bytes(bytes: Seq<u8>) -> Felt;

/// The public key that the Stark curve assigns to a private scalar.
pub uninterp spec fn public_key_of(private_key: Felt) -> Felt;

/// The address at which `deployer` deploys a contract of `class_hash` with `salt`
/// and the constructor arguments `calldata`.
pub uninterp spec fn contract_address_of(
    salt: Felt,
    class_hash: Felt,
    calldata: Seq<Felt>,
    deployer: Felt,
) -> Felt;

/// The 32 big-endian bytes of zero.
pub open spec fn zero_bytes() -> Seq<u8> {
    Seq::new(32, |i: int| 0u8)
}

/// The big-endian bytes of the order of the Stark curve's generator.
pub open spec fn curve_order_bytes() -> Seq<u8> {
    seq![
        0x08u8, 0x00, 0x00, 0x00, 0x00, 0x00, 0x00, 0x10, 0xff, 0xff, 0xff, 0xff, 0xff, 0xff, 0xff,
        0xff, 0xb7, 0x81, 0x12, 0x6d, 0xca, 0xe7, 0xb2, 0x32, 0x1e, 0x66, 0xa2, 0x41, 0xad, 0xc6,
        0x4d, 0x2f,
    ]
}

/// Whether `k` can be a private key: its multiple of the curve generator is a point of
/// the curve, not the point at infinity, so `k` is neither zero nor the order.
pub open spec fn is_signing_scalar(k: Felt) -> bool {
    k != felt_of_bytes(zero_bytes()) && k != felt_of_bytes(curve_order_bytes())
}

/// Relies on `Felt::from_bytes_be`, which reads 32 big-endian bytes and reduces them
/// modulo the field prime; it never fails on 32 bytes.
#[verifier::external_body]
pub(crate) fn felt_from_bytes_be(bytes: &[u8; 32]) -> (r: Felt)
    ensures
        r == felt_of_bytes(bytes@),
{
    Felt::from_bytes_be(bytes)
}

/// Relies on `SigningKey::from_secret_scalar(..).verifying_key().scalar()` of starknet,
/// the x coordinate of the curve generator times the scalar; the result depends on the
/// scalar alone. `get_public_key` unwraps the affine form of that point, which fails
/// for the point at infinity, hence the requirement.
#[verifier::external_body]
pub(crate) fn public_key_from_private_key(private_key: Felt) -> (r: Felt)
    requires
        is_signing_scalar(private_key),
    ensures
        r == public_key_of(private_key),
{
    starknet_signers::SigningKey::from_secret_scalar(private_key).verifying_key().scalar()
}

/// Relies on `starknet_core::utils::get_contract_address`, a Pedersen hash chain over
/// the prefix, deployer, salt, class hash and the hash of the constructor arguments;
/// the result depends on its arguments alone.
#[verifier::external_body]
pub(crate) fn get_contract_address(
    salt: Felt,
    class_hash: Felt,
    calldata: &[Felt],
    deployer: Felt,
) -> (r: Felt)
    ensures
        r == contract_address_of(salt, class_hash, calldata@, deployer),
{
    starknet_core::utils::get_contract_address(salt, class_hash, calldata, deployer)
}

/// The zero field element.
pub fn felt_zero() -> (r: Felt)
    ensures
        r == felt_of_bytes(zero_bytes()),
{
    let bytes: [u8; 32] = [0u8; 32];
    assert(bytes@ =~= zero_bytes());
    felt_from_bytes_be(&bytes)
}

/// Whether `k` can be a private key.
pub fn is_valid_private_key(k: &Felt) -> (r: bool)
    ensures
        r == is_signing_scalar(*k),
{
    let zero = felt_zero();
    let order_bytes: [u8; 32] = [
        0x08u8, 0x00, 0x00, 0x00, 0x00, 0x00, 0x00, 0x10, 0xff, 0xff, 0xff, 0xff, 0xff, 0xff, 0xff,
        0xff, 0xb7, 0x81, 0x12, 0x6d, 0xca, 0xe7, 0xb2, 0x32, 0x1e, 0x66, 0xa2, 0x41, 0xad, 0xc6,
        0x4d, 0x2f,
    ];
    assert(order_bytes@ =~= curve_order_bytes());
    let order = felt_from_bytes_be(&order_bytes);
    !(*k == zero) && !(*k == order)
}

} // verus!
