//! The allocations that seed the state at chain start.
use std::collections::BTreeMap;

use alloy_primitives::U256;
use starknet_core::types::Felt;
use vstd::prelude::*;

use crate::felt::{
    contract_address_of, felt_from_bytes_be, felt_of_bytes, felt_zero, get_contract_address,
    is_signing_scalar, public_key_from_private_key, public_key_of, zero_bytes, ClassHash,
    StorageKey, StorageValue,
};

verus! {

/// The address of a deployed contract.
#[derive(Debug, Clone, Copy, PartialEq, Eq, PartialOrd, Ord, Hash)]
pub struct ContractAddress(pub Felt);

/// The big-endian bytes of the salt that accounts get when none is given (666).
pub open spec fn default_salt_bytes() -> Seq<u8> {
    Seq::new(32, |i: int| if i == 30 { 2u8 } else if i == 31 { 154u8 } else { 0u8 })
}

/// The number that big-endian `bytes` write.
pub open spec fn big_endian_value(bytes: Seq<u8>) -> nat
    decreases bytes.len(),
{
    if bytes.len() == 0 {
        0
    } else {
        big_endian_value(bytes.drop_last()) * 256 + bytes.last() as nat
    }
}

/// The salt that accounts get when none is given.
pub open spec fn default_salt() -> Felt {
    felt_of_bytes(default_salt_bytes())
}

/// The address of an account self-deployed at genesis: the deployer is zero and the
/// constructor takes the public key alone.
pub open spec fn account_address(public_key: Felt, class_hash: ClassHash, salt: Felt) -> ContractAddress {
    ContractAddress(contract_address_of(salt, class_hash, seq![public_key], felt_of_bytes(zero_bytes())))
}

/// Represents a contract allocation in the genesis block.
#[derive(Debug, Clone, PartialEq, Eq)]
pub enum GenesisAllocation {
    /// Account contract
    Account(GenesisAccountAlloc),
    /// Generic non-account contract
    Contract(GenesisContractAlloc),
}

/// Genesis allocation for account contract.
#[derive(Debug, Clone, PartialEq, Eq)]
pub enum GenesisAccountAlloc {
    /// Account contract with hidden private key.
    Account(GenesisAccount),
    /// Account contract with exposed private key.
    DevAccount(DevGenesisAccount),
}

/// A generic non-account contract.
#[derive(Debug, Clone, PartialEq, Eq)]
pub struct GenesisContractAlloc {
    /// The class hash of the contract.
    pub class_hash: Option<ClassHash>,
    /// The amount of the fee token allocated to the contract.
    pub balance: Option<U256>,
    /// The initial nonce of the contract.
    pub nonce: Option<Felt>,
    /// The initial storage values of the contract.
    pub storage: Option<BTreeMap<StorageKey, StorageValue>>,
}

/// An account whose private key is kept with it, for development use.
#[derive(Debug, Clone, PartialEq, Eq)]
pub struct DevGenesisAccount {
    /// The private key associated with the public key of the account.
    pub private_key: Felt,
    /// The inner account contract.
    pub inner: GenesisAccount,
}

/// Account contract allocated in the genesis block.
#[derive(Debug, Clone, PartialEq, Eq)]
pub struct GenesisAccount {
    /// The public key associated with the account for validation.
    pub public_key: Felt,
    /// The class hash of the account contract.
    pub class_hash: ClassHash,
    /// The amount of the fee token allocated to the account.
    pub balance: Option<U256>,
    /// The initial nonce of the account.
    pub nonce: Option<Felt>,
    /// The initial storage values of the account.
    pub storage: Option<BTreeMap<StorageKey, StorageValue>>,
    /// The salt that will be used to deploy this account.
    pub salt: Felt,
}

impl GenesisAccount {
    /// The account record with the given fields and nothing allocated.
    pub open spec fn spec_new(public_key: Felt, class_hash: ClassHash, salt: Felt) -> GenesisAccount {
        GenesisAccount { public_key, class_hash, salt, balance: None, nonce: None, storage: None }
    }

    /// The salt used when none is given.
    pub fn default_salt() -> (r: Felt)
        ensures
            r == default_salt(),
    {
        let mut bytes: [u8; 32] = [0u8; 32];
        bytes[30] = 2u8;
        bytes[31] = 154u8;
        assert(bytes@ =~= default_salt_bytes());
        felt_from_bytes_be(&bytes)
    }

    /// An account with the default salt.
    pub fn new(public_key: Felt, class_hash: ClassHash) -> (r: Self)
        ensures
            r == Self::spec_new(public_key, class_hash, default_salt()),
    {
        let salt = Self::default_salt();
        Self::new_with_salt(public_key, class_hash, salt)
    }

    /// An account with the given salt.
    pub fn new_with_salt(public_key: Felt, class_hash: ClassHash, salt: Felt) -> (r: Self)
        ensures
            r == Self::spec_new(public_key, class_hash, salt),
    {
        GenesisAccount { public_key, class_hash, salt, balance: None, nonce: None, storage: None }
    }

    /// An account with the default salt and the given balance.
    pub fn new_with_balance(public_key: Felt, class_hash: ClassHash, balance: U256) -> (r: Self)
        ensures
            r == (GenesisAccount {
                balance: Some(balance),
                ..Self::spec_new(public_key, class_hash, default_salt())
            }),
    {
        let mut account = Self::new(public_key, class_hash);
        account.balance = Some(balance);
        account
    }

    /// An account with the given salt and balance.
    pub fn new_with_salt_and_balance(
        public_key: Felt,
        class_hash: ClassHash,
        salt: Felt,
        balance: U256,
    ) -> (r: Self)
        ensures
            r == (GenesisAccount {
                balance: Some(balance),
                ..Self::spec_new(public_key, class_hash, salt)
            }),
    {
        let mut account = Self::new_with_salt(public_key, class_hash, salt);
        account.balance = Some(balance);
        account
    }

    /// The address of this account.
    pub open spec fn spec_address(&self) -> ContractAddress {
        account_address(self.public_key, self.class_hash, self.salt)
    }

    /// Returns the address of this account.
    pub fn address(&self) -> (r: ContractAddress)
        ensures
            r == self.spec_address(),
    {
        let calldata: Vec<Felt> = vec![self.public_key];
        let deployer = felt_zero();
        assert(calldata@ =~= seq![self.public_key]);
        ContractAddress(get_contract_address(self.salt, self.class_hash, calldata.as_slice(), deployer))
    }
}

impl Default for GenesisContractAlloc {
    /// A contract with nothing given.
    fn default() -> (r: Self)
        ensures
            r == (GenesisContractAlloc { class_hash: None, balance: None, nonce: None, storage: None }),
    {
        GenesisContractAlloc { class_hash: None, balance: None, nonce: None, storage: None }
    }
}

impl Default for GenesisAccount {
    /// An account whose keys, class hash and salt are zero, with nothing allocated.
    fn default() -> (r: Self)
        ensures
            r == GenesisAccount::spec_new(
                felt_of_bytes(zero_bytes()),
                felt_of_bytes(zero_bytes()),
                felt_of_bytes(zero_bytes()),
            ),
    {
        let zero = felt_zero();
        GenesisAccount::new_with_salt(zero, zero, zero)
    }
}

impl Default for DevGenesisAccount {
    /// A dev account whose fields are all zero, with nothing allocated.
    fn default() -> (r: Self)
        ensures
            r == (DevGenesisAccount {
                private_key: felt_of_bytes(zero_bytes()),
                inner: GenesisAccount::spec_new(
                    felt_of_bytes(zero_bytes()),
                    felt_of_bytes(zero_bytes()),
                    felt_of_bytes(zero_bytes()),
                ),
            }),
    {
        DevGenesisAccount { private_key: felt_zero(), inner: GenesisAccount::default() }
    }
}

impl DevGenesisAccount {
    /// The dev account of `private_key`: its public key is derived on the Stark curve,
    /// its salt is the default one and nothing is allocated to it.
    pub open spec fn spec_new(private_key: Felt, class_hash: ClassHash) -> DevGenesisAccount {
        DevGenesisAccount {
            private_key,
            inner: GenesisAccount::spec_new(public_key_of(private_key), class_hash, default_salt()),
        }
    }

    /// Creates a new dev account with the given `private_key` and `class_hash`; the key
    /// must be usable for signing.
    pub fn new(private_key: Felt, class_hash: ClassHash) -> (r: Self)
        requires
            is_signing_scalar(private_key),
        ensures
            r == Self::spec_new(private_key, class_hash),
    {
        let public_key = public_key_from_private_key(private_key);
        DevGenesisAccount { private_key, inner: GenesisAccount::new(public_key, class_hash) }
    }

    /// Creates a new dev account with the allocated `balance`.
    pub fn new_with_balance(private_key: Felt, class_hash: ClassHash, balance: U256) -> (r: Self)
        requires
            is_signing_scalar(private_key),
        ensures
            r == (DevGenesisAccount {
                inner: GenesisAccount {
                    balance: Some(balance),
                    ..Self::spec_new(private_key, class_hash).inner
                },
                ..Self::spec_new(private_key, class_hash)
            }),
    {
        let mut account = Self::new(private_key, class_hash);
        account.inner.balance = Some(balance);
        account
    }

    /// The address of the inner account.
    pub fn address(&self) -> (r: ContractAddress)
        ensures
            r == self.inner.spec_address(),
    {
        self.inner.address()
    }
}

impl GenesisAccountAlloc {
    /// The plain account record, with or without its private key.
    pub open spec fn account(&self) -> GenesisAccount {
        match self {
            GenesisAccountAlloc::Account(account) => *account,
            GenesisAccountAlloc::DevAccount(account) => account.inner,
        }
    }

    pub fn public_key(&self) -> (r: Felt)
        ensures
            r == self.account().public_key,
    {
        match self {
            GenesisAccountAlloc::Account(account) => account.public_key,
            GenesisAccountAlloc::DevAccount(account) => account.inner.public_key,
        }
    }

    pub fn class_hash(&self) -> (r: ClassHash)
        ensures
            r == self.account().class_hash,
    {
        match self {
            GenesisAccountAlloc::Account(account) => account.class_hash,
            GenesisAccountAlloc::DevAccount(account) => account.inner.class_hash,
        }
    }

    pub fn balance(&self) -> (r: Option<U256>)
        ensures
            r == self.account().balance,
    {
        match self {
            GenesisAccountAlloc::Account(account) => account.balance,
            GenesisAccountAlloc::DevAccount(account) => account.inner.balance,
        }
    }

    pub fn nonce(&self) -> (r: Option<Felt>)
        ensures
            r == self.account().nonce,
    {
        match self {
            GenesisAccountAlloc::Account(account) => account.nonce,
            GenesisAccountAlloc::DevAccount(account) => account.inner.nonce,
        }
    }

    pub fn storage(&self) -> (r: Option<&BTreeMap<StorageKey, StorageValue>>)
        ensures
            match self.account().storage {
                Some(m) => r.is_some() && *r.unwrap() == m,
                None => r.is_none(),
            },
    {
        match self {
            GenesisAccountAlloc::Account(account) => account.storage.as_ref(),
            GenesisAccountAlloc::DevAccount(account) => account.inner.storage.as_ref(),
        }
    }

    pub fn private_key(&self) -> (r: Option<Felt>)
        ensures
            r == match self {
                GenesisAccountAlloc::Account(_) => None,
                GenesisAccountAlloc::DevAccount(account) => Some(account.private_key),
            },
    {
        match self {
            GenesisAccountAlloc::Account(_) => None,
            GenesisAccountAlloc::DevAccount(account) => Some(account.private_key),
        }
    }
}

impl GenesisAllocation {
    /// The public key, present for accounts only.
    pub open spec fn spec_public_key(&self) -> Option<Felt> {
        match self {
            GenesisAllocation::Contract(_) => None,
            GenesisAllocation::Account(account) => Some(account.account().public_key),
        }
    }

    /// The class hash, present for every account and optional for other contracts.
    pub open spec fn spec_class_hash(&self) -> Option<ClassHash> {
        match self {
            GenesisAllocation::Contract(contract) => contract.class_hash,
            GenesisAllocation::Account(account) => Some(account.account().class_hash),
        }
    }

    /// The balance, whatever the kind of allocation.
    pub open spec fn spec_balance(&self) -> Option<U256> {
        match self {
            GenesisAllocation::Contract(contract) => contract.balance,
            GenesisAllocation::Account(account) => account.account().balance,
        }
    }

    /// The nonce, whatever the kind of allocation.
    pub open spec fn spec_nonce(&self) -> Option<Felt> {
        match self {
            GenesisAllocation::Contract(contract) => contract.nonce,
            GenesisAllocation::Account(account) => account.account().nonce,
        }
    }

    /// The storage, whatever the kind of allocation.
    pub open spec fn spec_storage(&self) -> Option<BTreeMap<StorageKey, StorageValue>> {
        match self {
            GenesisAllocation::Contract(contract) => contract.storage,
            GenesisAllocation::Account(account) => account.account().storage,
        }
    }

    /// Get the public key of the account contract if it's an account contract, otherwise `None`.
    pub fn public_key(&self) -> (r: Option<Felt>)
        ensures
            r == self.spec_public_key(),
    {
        match self {
            GenesisAllocation::Contract(_) => None,
            GenesisAllocation::Account(account) => Some(account.public_key()),
        }
    }

    /// Get the contract class hash.
    pub fn class_hash(&self) -> (r: Option<ClassHash>)
        ensures
            r == self.spec_class_hash(),
    {
        match self {
            GenesisAllocation::Contract(contract) => contract.class_hash,
            GenesisAllocation::Account(account) => Some(account.class_hash()),
        }
    }

    /// Get the balance to be allocated to this contract.
    pub fn balance(&self) -> (r: Option<U256>)
        ensures
            r == self.spec_balance(),
    {
        match self {
            GenesisAllocation::Contract(contract) => contract.balance,
            GenesisAllocation::Account(account) => account.balance(),
        }
    }

    /// Get the nonce.
    pub fn nonce(&self) -> (r: Option<Felt>)
        ensures
            r == self.spec_nonce(),
    {
        match self {
            GenesisAllocation::Contract(contract) => contract.nonce,
            GenesisAllocation::Account(account) => account.nonce(),
        }
    }

    /// Get the storage values for this contract allocation.
    pub fn storage(&self) -> (r: Option<&BTreeMap<StorageKey, StorageValue>>)
        ensures
            match self.spec_storage() {
                Some(m) => r.is_some() && *r.unwrap() == m,
                None => r.is_none(),
            },
    {
        match self {
            GenesisAllocation::Contract(contract) => contract.storage.as_ref(),
            GenesisAllocation::Account(account) => account.storage(),
        }
    }
}

impl From<DevGenesisAccount> for GenesisAllocation {
    fn from(value: DevGenesisAccount) -> (r: Self) {
        GenesisAllocation::Account(GenesisAccountAlloc::DevAccount(value))
    }
}

impl vstd::std_specs::convert::FromSpecImpl<DevGenesisAccount> for GenesisAllocation {
    open spec fn obeys_from_spec() -> bool {
        true
    }

    open spec fn from_spec(value: DevGenesisAccount) -> GenesisAllocation {
        GenesisAllocation::Account(GenesisAccountAlloc::DevAccount(value))
    }
}

/// Every account allocation has a public key, and a generic contract allocation
/// reports exactly the class hash and balance it was given.
pub proof fn lemma_accessors_delegate(a: GenesisAllocation)
    ensures
        a is Account ==> a.spec_public_key().is_some(),
        a is Contract ==> a.spec_class_hash() == a->Contract_0.class_hash
            && a.spec_balance() == a->Contract_0.balance,
{
}

/// Leading zero bytes write zero.
proof fn lemma_zero_prefix_value(b: Seq<u8>, k: int)
    requires
        0 <= k <= b.len(),
        forall|i: int| 0 <= i < k ==> b[i] == 0,
    ensures
        big_endian_value(b.subrange(0, k)) == 0,
    decreases k,
{
    if k > 0 {
        assert(b.subrange(0, k).drop_last() =~= b.subrange(0, k - 1));
        lemma_zero_prefix_value(b, k - 1);
    }
}

/// An account made without a salt gets the salt 666, and is the account, at the same
/// address, that is made with that salt given.
pub proof fn lemma_default_salt(public_key: Felt, class_hash: ClassHash, salt: Felt)
    requires
        salt == felt_of_bytes(default_salt_bytes()),
    ensures
        big_endian_value(default_salt_bytes()) == 666,
        GenesisAccount::spec_new(public_key, class_hash, default_salt()).salt == salt,
        GenesisAccount::spec_new(public_key, class_hash, default_salt()) == GenesisAccount::spec_new(
            public_key,
            class_hash,
            salt,
        ),
        GenesisAccount::spec_new(public_key, class_hash, default_salt()).spec_address()
            == GenesisAccount::spec_new(public_key, class_hash, salt).spec_address(),
{
    let b = default_salt_bytes();
    lemma_zero_prefix_value(b, 30);
    assert(b.subrange(0, 31).drop_last() =~= b.subrange(0, 30));
    assert(big_endian_value(b.subrange(0, 31)) == 2);
    assert(b.subrange(0, 32).drop_last() =~= b.subrange(0, 31));
    assert(big_endian_value(b.subrange(0, 32)) == 666);
    assert(b.subrange(0, 32) =~= b);
}

} // verus!
