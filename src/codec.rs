//! The byte encoding of the values stored in the node's tables.
use starknet_core::types::Felt;
use vstd::prelude::*;

use crate::felt::felt_of_bytes;
use crate::genesis::ContractAddress;

verus! {

#[verifier::external_type_specification]
#[verifier::external_body]
pub struct ExPostcardError(postcard::Error);

/// Why bytes could not be read back as a value.
#[derive(Debug, Clone, PartialEq, Eq)]
pub enum CodecError {
    /// The bytes are not an encoding of the requested type; the text says why.
    Decompress(String),
}

/// A value that can be read back from a table.
pub trait Decompress: Sized {
    /// The value that `bytes` encode, if they encode one.
    spec fn decompressed(bytes: Seq<u8>) -> Option<Self>;

    fn decompress(bytes: &[u8]) -> (r: Result<Self, CodecError>)
        ensures
            match r {
                Ok(v) => Self::decompressed(bytes@) == Some(v),
                Err(_) => Self::decompressed(bytes@) is None,
            },
    ;
}

/// A value that can be written to a table; its bytes read back as the value.
pub trait Compress: Decompress {
    /// The bytes that stand for the value.
    spec fn compressed(&self) -> Seq<u8>;

    fn compress(self) -> (r: Vec<u8>)
        ensures
            r@ == self.compressed(),
            Self::decompressed(r@) == Some(self),
    ;
}

/// 128 to the power `k`.
pub open spec fn pow128(k: nat) -> nat
    decreases k,
{
    if k == 0 {
        1
    } else {
        128 * pow128((k - 1) as nat)
    }
}

/// The LEB128 varint of `n`: seven bits a byte, least significant first, the high bit
/// set on every byte but the last.
pub open spec fn varint_encoding(n: nat) -> Seq<u8>
    decreases n,
{
    if n < 128 {
        seq![n as u8]
    } else {
        seq![(n % 128 + 128) as u8] + varint_encoding(n / 128)
    }
}

/// Reading a varint from the start of `s`, in at most `limit` bytes, where the byte in
/// the last admissible place may carry one bit only (so that ten bytes hold a u64).
/// Gives the value and the number of bytes read; what follows is left alone.
pub open spec fn varint_take(s: Seq<u8>, limit: nat) -> Option<(nat, nat)>
    decreases s.len(),
{
    if s.len() == 0 || limit == 0 {
        None
    } else if s[0] < 128 {
        if limit == 1 && s[0] > 1 {
            None
        } else {
            Some((s[0] as nat, 1nat))
        }
    } else {
        match varint_take(s.drop_first(), (limit - 1) as nat) {
            Some((v, n)) => Some(((s[0] - 128) as nat + 128 * v, n + 1)),
            None => None,
        }
    }
}

/// The most bytes a u64 varint takes.
pub const U64_VARINT_MAX: u64 = 10;

/// The element that `s` encodes as a byte string: a varint length of 32, then the 32
/// big-endian bytes.
pub open spec fn felt_decoding(s: Seq<u8>) -> Option<Felt> {
    match varint_take(s, U64_VARINT_MAX as nat) {
        Some((len, start)) => if len == 32 && s.len() >= start + 32 {
            Some(felt_of_bytes(s.subrange(start as int, (start + 32) as int)))
        } else {
            None
        },
        None => None,
    }
}

/// The 32 big-endian bytes of a field element.
pub uninterp spec fn felt_bytes(f: Felt) -> Seq<u8>;

/// Relies on `postcard::to_stdvec` for a `u64`: postcard writes the value as a LEB128
/// varint (`varint_u64`), and writing into a growable vector does not fail.
#[verifier::external_body]
fn postcard_encode_u64(v: u64) -> (r: Vec<u8>)
    ensures
        r@ == varint_encoding(v as nat),
{
    postcard::to_stdvec(&v).unwrap()
}

/// Relies on `postcard::from_bytes` for a `u64`: it reads a varint of at most ten bytes
/// whose tenth byte is 0 or 1 (`try_take_varint_u64`), ignores what follows, and fails
/// on anything else.
#[verifier::external_body]
fn postcard_decode_u64(bytes: &[u8]) -> (r: Result<u64, postcard::Error>)
    ensures
        match r {
            Ok(v) => varint_take(bytes@, U64_VARINT_MAX as nat) matches Some((n, _)) && n == v as nat,
            Err(_) => varint_take(bytes@, U64_VARINT_MAX as nat) is None,
        },
{
    postcard::from_bytes::<u64>(bytes)
}

/// Relies on `postcard::to_stdvec` for a `Felt`: in a binary format `Felt` serializes
/// as the byte string of `to_bytes_be`, which postcard writes as its length (32, one
/// varint byte) and the bytes; `Felt::from_bytes_be` of those bytes is the element.
#[verifier::external_body]
fn postcard_encode_felt(f: &Felt) -> (r: Vec<u8>)
    ensures
        r@ == seq![32u8] + felt_bytes(*f),
        r@.len() == 33,
        felt_of_bytes(r@.subrange(1, 33)) == *f,
{
    postcard::to_stdvec(f).unwrap()
}

/// Relies on `postcard::from_bytes` for a `Felt`: postcard reads a varint length and
/// that many bytes (`deserialize_bytes`), and `Felt`'s visitor accepts exactly 32 of
/// them, read with `Felt::from_bytes_be`; what follows is ignored.
#[verifier::external_body]
fn postcard_decode_felt(bytes: &[u8]) -> (r: Result<Felt, postcard::Error>)
    ensures
        match r {
            Ok(f) => felt_decoding(bytes@) == Some(f),
            Err(_) => felt_decoding(bytes@) is None,
        },
{
    postcard::from_bytes::<Felt>(bytes)
}

/// Relies on the `Display` impl of `postcard::Error`, which describes the error.
#[verifier::external_body]
fn postcard_error_message(e: &postcard::Error) -> (r: String) {
    e.to_string()
}

fn decompress_error(e: postcard::Error) -> (r: CodecError)
    ensures
        r is Decompress,
{
    CodecError::Decompress(postcard_error_message(&e))
}

/// A varint of a value below `2 * 128^(limit - 1)` reads back as that value, whatever
/// follows it.
pub proof fn lemma_varint_round_trip(n: nat, rest: Seq<u8>, limit: nat)
    requires
        limit >= 1,
        n < 2 * pow128((limit - 1) as nat),
    ensures
        varint_take(varint_encoding(n) + rest, limit) == Some((n, varint_encoding(n).len())),
    decreases n,
{
    let s = varint_encoding(n) + rest;
    if n < 128 {
        assert(s[0] == n as u8);
        assert(s.len() > 0);
    } else {
        assert(limit >= 2);
        assert(pow128((limit - 1) as nat) == 128 * pow128((limit - 2) as nat));
        assert(n / 128 < 2 * pow128((limit - 2) as nat)) by (nonlinear_arith)
            requires
                n < 2 * (128 * pow128((limit - 2) as nat)),
        ;
        lemma_varint_round_trip(n / 128, rest, (limit - 1) as nat);
        assert(s.drop_first() =~= varint_encoding(n / 128) + rest);
        assert(s[0] == (n % 128 + 128) as u8);
        assert(n == n % 128 + 128 * (n / 128)) by (nonlinear_arith);
    }
}

/// A varint cut short anywhere is rejected, whatever the limit.
pub proof fn lemma_varint_truncation_rejected(n: nat, k: int, limit: nat)
    requires
        0 <= k < varint_encoding(n).len(),
    ensures
        varint_take(varint_encoding(n).subrange(0, k), limit) is None,
    decreases n,
{
    let s = varint_encoding(n);
    let t = s.subrange(0, k);
    if k > 0 && limit > 0 {
        assert(n >= 128);
        assert(t[0] == s[0]);
        assert(t.drop_first() =~= varint_encoding(n / 128).subrange(0, k - 1));
        lemma_varint_truncation_rejected(n / 128, k - 1, (limit - 1) as nat);
    }
}

/// The bytes of a u64 cut short anywhere are rejected.
pub proof fn lemma_u64_truncation_rejected(v: u64, k: int)
    requires
        0 <= k < v.compressed().len(),
    ensures
        <u64 as Decompress>::decompressed(v.compressed().subrange(0, k)) is None,
{
    lemma_varint_truncation_rejected(v as nat, k, U64_VARINT_MAX as nat);
}

/// Every u64 is below `2 * 128^9`.
proof fn lemma_u64_bound(v: u64)
    ensures
        (v as nat) < 2 * pow128(9),
{
    assert(pow128(0) == 1);
    assert(pow128(1) == 0x80);
    assert(pow128(2) == 0x4000);
    assert(pow128(3) == 0x20_0000);
    assert(pow128(4) == 0x1000_0000);
    assert(pow128(5) == 0x8_0000_0000);
    assert(pow128(6) == 0x400_0000_0000);
    assert(pow128(7) == 0x2_0000_0000_0000);
    assert(pow128(8) == 0x100_0000_0000_0000);
    assert(pow128(9) == 0x8000_0000_0000_0000);
}

impl Compress for u64 {
    open spec fn compressed(&self) -> Seq<u8> {
        varint_encoding(*self as nat)
    }

    fn compress(self) -> (r: Vec<u8>) {
        proof {
            lemma_u64_round_trip(self);
        }
        postcard_encode_u64(self)
    }
}

impl Decompress for u64 {
    open spec fn decompressed(bytes: Seq<u8>) -> Option<u64> {
        match varint_take(bytes, U64_VARINT_MAX as nat) {
            Some((n, _)) => Some(n as u64),
            None => None,
        }
    }

    fn decompress(bytes: &[u8]) -> (r: Result<u64, CodecError>) {
        match postcard_decode_u64(bytes) {
            Ok(v) => Ok(v),
            Err(e) => Err(decompress_error(e)),
        }
    }
}

/// The bytes of a u64 read back as that u64.
pub proof fn lemma_u64_round_trip(v: u64)
    ensures
        <u64 as Decompress>::decompressed(v.compressed()) == Some(v),
{
    lemma_u64_bound(v);
    lemma_varint_round_trip(v as nat, Seq::empty(), 10);
    assert(varint_encoding(v as nat) + Seq::<u8>::empty() =~= varint_encoding(v as nat));
}

/// The bytes of an element encode that element.
proof fn lemma_felt_round_trip(f: Felt, bytes: Seq<u8>)
    requires
        bytes.len() == 33,
        bytes[0] == 32,
        felt_of_bytes(bytes.subrange(1, 33)) == f,
    ensures
        felt_decoding(bytes) == Some(f),
{
    assert(varint_take(bytes, 10) == Some((32nat, 1nat)));
}

/// The bytes of an element cut short anywhere are rejected.
pub proof fn lemma_felt_truncation_rejected(bytes: Seq<u8>, k: int)
    requires
        bytes.len() == 33,
        bytes[0] == 32,
        0 <= k < 33,
    ensures
        felt_decoding(bytes.subrange(0, k)) is None,
{
    let t = bytes.subrange(0, k);
    if k > 0 {
        assert(t[0] == 32);
        assert(varint_take(t, 10) == Some((32nat, 1nat)));
    }
}

impl Compress for Felt {
    open spec fn compressed(&self) -> Seq<u8> {
        seq![32u8] + felt_bytes(*self)
    }

    fn compress(self) -> (r: Vec<u8>) {
        let r = postcard_encode_felt(&self);
        proof {
            lemma_felt_round_trip(self, r@);
        }
        r
    }
}

impl Decompress for Felt {
    open spec fn decompressed(bytes: Seq<u8>) -> Option<Felt> {
        felt_decoding(bytes)
    }

    fn decompress(bytes: &[u8]) -> (r: Result<Felt, CodecError>) {
        match postcard_decode_felt(bytes) {
            Ok(f) => Ok(f),
            Err(e) => Err(decompress_error(e)),
        }
    }
}

impl Decompress for ContractAddress {
    open spec fn decompressed(bytes: Seq<u8>) -> Option<ContractAddress> {
        match felt_decoding(bytes) {
            Some(f) => Some(ContractAddress(f)),
            None => None,
        }
    }

    fn decompress(bytes: &[u8]) -> (r: Result<ContractAddress, CodecError>) {
        match <Felt as Decompress>::decompress(bytes) {
            Ok(f) => Ok(ContractAddress(f)),
            Err(e) => Err(e),
        }
    }
}

impl Compress for ContractAddress {
    open spec fn compressed(&self) -> Seq<u8> {
        self.0.compressed()
    }

    fn compress(self) -> (r: Vec<u8>) {
        <Felt as Compress>::compress(self.0)
    }
}

} // verus!
