//! Reproducible generation of funded development accounts.
use alloy_primitives::U256;
use rand::rngs::SmallRng;
use rand::{RngCore, SeedableRng};
use starknet_core::types::Felt;
use vstd::prelude::*;

use crate::felt::{
    felt_from_bytes_be, felt_of_bytes, is_signing_scalar, is_valid_private_key, zero_bytes, ClassHash,
};
use crate::genesis::{ContractAddress, DevGenesisAccount, GenesisAccount};

verus! {

/// The 32 bytes that a `SmallRng` seeded with `seed` yields first.
pub uninterp spec fn small_rng_first_bytes(seed: Seq<u8>) -> Seq<u8>;

/// Relies on rand's `SmallRng::from_seed` and `RngCore::fill_bytes`: the generator is
/// deterministic, so the 32 bytes it fills first depend on the seed alone (for the
/// pointer width this crate is built for).
#[verifier::external_body]
fn first_random_bytes(seed: [u8; 32]) -> (r: [u8; 32])
    ensures
        r@ == small_rng_first_bytes(seed@),
{
    let mut rng = SmallRng::from_seed(seed);
    let mut bytes = [0u8; 32];
    rng.fill_bytes(&mut bytes);
    bytes
}

/// The big-endian bytes of the class hash that generated accounts get by default.
pub open spec fn default_account_class_bytes() -> Seq<u8> {
    seq![
        0x07u8, 0xdc, 0x78, 0x99, 0xaa, 0x65, 0x5b, 0x0a, 0xae, 0x51, 0xea, 0xdf, 0xf6, 0xd8, 0x01,
        0xa5, 0x8e, 0x97, 0xdd, 0x99, 0xcf, 0x46, 0x66, 0xee, 0x59, 0xe7, 0x04, 0x24, 0x9e, 0x51,
        0xad, 0xf2,
    ]
}

/// The class hash of the default account contract.
pub fn default_account_class_hash() -> (r: ClassHash)
    ensures
        r == felt_of_bytes(default_account_class_bytes()),
{
    let bytes: [u8; 32] = [
        0x07u8, 0xdc, 0x78, 0x99, 0xaa, 0x65, 0x5b, 0x0a, 0xae, 0x51, 0xea, 0xdf, 0xf6, 0xd8, 0x01,
        0xa5, 0x8e, 0x97, 0xdd, 0x99, 0xcf, 0x46, 0x66, 0xee, 0x59, 0xe7, 0x04, 0x24, 0x9e, 0x51,
        0xad, 0xf2,
    ];
    assert(bytes@ =~= default_account_class_bytes());
    felt_from_bytes_be(&bytes)
}

/// `draw` with its first byte reduced modulo 8, which keeps the big-endian value below
/// the order of the Stark curve.
pub open spec fn masked(draw: Seq<u8>) -> Seq<u8> {
    draw.update(0, (draw[0] % 8) as u8)
}

/// The private-key bytes of the account at `index`: each key is drawn from a generator
/// seeded with the previous key, the first from `seed`.
pub open spec fn key_bytes(seed: Seq<u8>, index: nat) -> Seq<u8>
    decreases index,
{
    if index == 0 {
        masked(small_rng_first_bytes(seed))
    } else {
        masked(small_rng_first_bytes(key_bytes(seed, (index - 1) as nat)))
    }
}

/// A helper type for allocating dev accounts in the genesis block.
#[must_use]
#[derive(Debug)]
pub struct DevAllocationsGenerator {
    total: u16,
    seed: [u8; 32],
    balance: Option<U256>,
    class_hash: Felt,
}

impl DevAllocationsGenerator {
    /// The number of accounts to generate.
    pub closed spec fn spec_total(&self) -> u16 {
        self.total
    }

    /// The seed of the first account.
    pub closed spec fn spec_seed(&self) -> Seq<u8> {
        self.seed@
    }

    /// The balance given to every account, if any.
    pub closed spec fn spec_balance(&self) -> Option<U256> {
        self.balance
    }

    /// The class hash of every account.
    pub closed spec fn spec_class_hash(&self) -> Felt {
        self.class_hash
    }

    /// The account generated at `index`.
    pub open spec fn account_at(&self, index: nat) -> DevGenesisAccount {
        let base = DevGenesisAccount::spec_new(
            felt_of_bytes(key_bytes(self.spec_seed(), index)),
            self.spec_class_hash(),
        );
        match self.spec_balance() {
            Some(amount) => DevGenesisAccount {
                inner: GenesisAccount { balance: Some(amount), ..base.inner },
                ..base
            },
            None => base,
        }
    }

    /// The accounts in the order of generation, each with its address.
    pub open spec fn generated(&self) -> Seq<(ContractAddress, DevGenesisAccount)> {
        Seq::new(
            self.spec_total() as nat,
            |i: int| (self.account_at(i as nat).inner.spec_address(), self.account_at(i as nat)),
        )
    }

    /// Create a new dev account generator for `total` number of accounts, with a zero
    /// seed, no balance and the default account class.
    pub fn new(total: u16) -> (r: Self)
        ensures
            r.spec_total() == total,
            r.spec_seed() == zero_bytes(),
            r.spec_balance() is None,
            r.spec_class_hash() == felt_of_bytes(default_account_class_bytes()),
    {
        let seed: [u8; 32] = [0u8; 32];
        assert(seed@ =~= zero_bytes());
        DevAllocationsGenerator {
            total,
            seed,
            balance: None,
            class_hash: default_account_class_hash(),
        }
    }

    pub fn with_class(self, class_hash: ClassHash) -> (r: Self)
        ensures
            r.spec_total() == self.spec_total(),
            r.spec_seed() == self.spec_seed(),
            r.spec_balance() == self.spec_balance(),
            r.spec_class_hash() == class_hash,
    {
        DevAllocationsGenerator { class_hash, ..self }
    }

    pub fn with_seed(self, seed: [u8; 32]) -> (r: Self)
        ensures
            r.spec_total() == self.spec_total(),
            r.spec_seed() == seed@,
            r.spec_balance() == self.spec_balance(),
            r.spec_class_hash() == self.spec_class_hash(),
    {
        DevAllocationsGenerator { seed, ..self }
    }

    pub fn with_balance(self, balance: U256) -> (r: Self)
        ensures
            r.spec_total() == self.spec_total(),
            r.spec_seed() == self.spec_seed(),
            r.spec_balance() == Some(balance),
            r.spec_class_hash() == self.spec_class_hash(),
    {
        DevAllocationsGenerator { balance: Some(balance), ..self }
    }

    /// Whether every key that the seed chain yields can sign.
    pub open spec fn keys_valid(&self) -> bool {
        forall|i: nat|
            i < self.spec_total() ==> is_signing_scalar(
                #[trigger] felt_of_bytes(key_bytes(self.spec_seed(), i)),
            )
    }

    /// Every private key of the generated accounts is read from 32 big-endian bytes
    /// whose first byte is below 8.
    pub open spec fn keys_masked(&self) -> bool {
        forall|i: nat| i < self.spec_total() ==> {
            &&& #[trigger] key_bytes(self.spec_seed(), i).len() == 32
            &&& key_bytes(self.spec_seed(), i)[0] < 8
            &&& self.account_at(i).private_key == felt_of_bytes(key_bytes(self.spec_seed(), i))
        }
    }

    /// Generate `total` accounts from the seed, in order of generation, each paired
    /// with its address; `None` if a key of the chain cannot sign.
    pub fn try_generate(&self) -> (r: Option<Vec<(ContractAddress, DevGenesisAccount)>>)
        ensures
            r is Some <==> self.keys_valid(),
            r matches Some(v) ==> v@ == self.generated() && self.keys_masked(),
    {
        let mut seed: [u8; 32] = self.seed;
        let mut out: Vec<(ContractAddress, DevGenesisAccount)> = Vec::new();
        let mut i: u16 = 0;
        while i < self.total
            invariant
                i <= self.total,
                out@.len() == i,
                forall|j: int| 0 <= j < i ==> out@[j] == self.generated()[j],
                i == 0 ==> seed@ == self.seed@,
                i > 0 ==> seed@ == key_bytes(self.seed@, (i - 1) as nat),
                forall|j: nat| j < i ==> {
                    &&& #[trigger] key_bytes(self.seed@, j).len() == 32
                    &&& key_bytes(self.seed@, j)[0] < 8
                },
                forall|j: nat| j < i ==> is_signing_scalar(
                    #[trigger] felt_of_bytes(key_bytes(self.seed@, j)),
                ),
            decreases self.total - i,
        {
            let mut bytes = first_random_bytes(seed);
            let first: u8 = bytes[0] % 8;
            bytes[0] = first;
            assert(bytes@ == key_bytes(self.seed@, i as nat)) by {
                assert(bytes@ =~= masked(small_rng_first_bytes(seed@)));
            }
            seed = bytes;
            let private_key = felt_from_bytes_be(&bytes);
            if !is_valid_private_key(&private_key) {
                assert(!is_signing_scalar(felt_of_bytes(key_bytes(self.spec_seed(), i as nat))));
                assert(!self.keys_valid());
                return None;
            }
            let account = match self.balance {
                Some(amount) => DevGenesisAccount::new_with_balance(private_key, self.class_hash, amount),
                None => DevGenesisAccount::new(private_key, self.class_hash),
            };
            let address = account.address();
            out.push((address, account));
            i = i + 1;
        }
        assert(out@ =~= self.generated());
        assert forall|j: nat| j < self.spec_total() implies {
            &&& #[trigger] key_bytes(self.spec_seed(), j).len() == 32
            &&& key_bytes(self.spec_seed(), j)[0] < 8
            &&& self.account_at(j).private_key == felt_of_bytes(key_bytes(self.spec_seed(), j))
        } by {
            assert(key_bytes(self.seed@, j).len() == 32);
        }
        assert(self.keys_valid());
        Some(out)
    }

    /// Generate `total` accounts from the seed, in order of generation, each paired
    /// with its address; every key of the chain must be able to sign.
    pub fn generate(&self) -> (r: Vec<(ContractAddress, DevGenesisAccount)>)
        requires
            self.keys_valid(),
        ensures
            r@ == self.generated(),
            self.keys_masked(),
    {
        match self.try_generate() {
            Some(accounts) => accounts,
            None => Vec::new(),
        }
    }
}

/// Two generators with the same configuration generate the same accounts.
pub proof fn lemma_generate_deterministic(a: DevAllocationsGenerator, b: DevAllocationsGenerator)
    requires
        a.spec_total() == b.spec_total(),
        a.spec_seed() == b.spec_seed(),
        a.spec_balance() == b.spec_balance(),
        a.spec_class_hash() == b.spec_class_hash(),
    ensures
        a.generated() == b.generated(),
{
    assert(a.generated() =~= b.generated());
}

/// The accounts that come first do not depend on how many are generated: two
/// generators that differ only in their totals agree on every index both reach.
pub proof fn lemma_generate_prefix_stable(
    a: DevAllocationsGenerator,
    b: DevAllocationsGenerator,
    index: int,
)
    requires
        a.spec_seed() == b.spec_seed(),
        a.spec_balance() == b.spec_balance(),
        a.spec_class_hash() == b.spec_class_hash(),
        0 <= index < a.spec_total(),
        0 <= index < b.spec_total(),
    ensures
        a.generated()[index] == b.generated()[index],
{
}

} // verus!
