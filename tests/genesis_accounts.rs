use std::collections::{BTreeMap, HashSet};

use alloy_primitives::U256;
use katana_genesis::felt::is_valid_private_key;
use katana_genesis::genesis::{
    ContractAddress, DevGenesisAccount, GenesisAccount, GenesisAccountAlloc, GenesisAllocation,
    GenesisContractAlloc,
};
use starknet_core::types::Felt;

fn felt(v: u64) -> Felt {
    Felt::from(v)
}

#[test]
fn default_salt_is_666() {
    let account = GenesisAccount::new(felt(1), felt(2));
    assert_eq!(account.salt, felt(666));
    assert_eq!(GenesisAccount::default_salt(), felt(666));
    assert_eq!(account.balance, None);
    assert_eq!(account.nonce, None);
    assert_eq!(account.storage, None);
}

#[test]
fn default_salt_gives_same_address_as_explicit_salt() {
    let a = GenesisAccount::new(felt(11), felt(22));
    let b = GenesisAccount::new_with_salt(felt(11), felt(22), felt(666));
    assert_eq!(a, b);
    assert_eq!(a.address(), b.address());
}

#[test]
fn address_depends_on_salt_key_and_class() {
    let base = GenesisAccount::new_with_salt(felt(11), felt(22), felt(1));
    let salt = GenesisAccount::new_with_salt(felt(11), felt(22), felt(2));
    let key = GenesisAccount::new_with_salt(felt(12), felt(22), felt(1));
    let class = GenesisAccount::new_with_salt(felt(11), felt(23), felt(1));
    assert_ne!(base.address(), salt.address());
    assert_ne!(base.address(), key.address());
    assert_ne!(base.address(), class.address());
    assert_ne!(base.address(), ContractAddress(felt(11)));
}

#[test]
fn address_matches_self_deployment() {
    let account = GenesisAccount::new_with_salt(felt(5), felt(6), felt(7));
    let expected =
        starknet_core::utils::get_contract_address(felt(7), felt(6), &[felt(5)], Felt::ZERO);
    assert_eq!(account.address(), ContractAddress(expected));
}

#[test]
fn constructors_with_balance() {
    let a = GenesisAccount::new_with_balance(felt(1), felt(2), U256::from(5u64));
    assert_eq!(a.balance, Some(U256::from(5u64)));
    assert_eq!(a.salt, felt(666));
    let b = GenesisAccount::new_with_salt_and_balance(felt(1), felt(2), felt(9), U256::from(7u64));
    assert_eq!(b.balance, Some(U256::from(7u64)));
    assert_eq!(b.salt, felt(9));
    assert_eq!(b.public_key, felt(1));
    assert_eq!(b.class_hash, felt(2));
}

#[test]
fn dev_account_derives_public_key() {
    let account = DevGenesisAccount::new(felt(1), felt(2));
    let generator_x =
        Felt::from_hex("0x1ef15c18599971b7beced415a40f0c7deacfd9b0d1819e03d723d8bc943cfca").unwrap();
    assert_eq!(account.private_key, felt(1));
    assert_eq!(account.inner.public_key, generator_x);
    assert_eq!(account.inner.salt, felt(666));
    assert_eq!(account.inner.balance, None);
    assert_eq!(account.address(), account.inner.address());
}

#[test]
fn dev_account_with_balance() {
    let account = DevGenesisAccount::new_with_balance(felt(3), felt(2), U256::from(100u64));
    assert_eq!(account.inner.balance, Some(U256::from(100u64)));
    assert_eq!(account.inner.public_key, DevGenesisAccount::new(felt(3), felt(2)).inner.public_key);
}

#[test]
fn contract_accessors_delegate() {
    let alloc = GenesisAllocation::Contract(GenesisContractAlloc {
        class_hash: None,
        balance: Some(U256::from(5u64)),
        nonce: None,
        storage: None,
    });
    assert_eq!(alloc.class_hash(), None);
    assert_eq!(alloc.balance(), Some(U256::from(5u64)));
    assert_eq!(alloc.public_key(), None);
    assert_eq!(alloc.nonce(), None);
    assert!(alloc.storage().is_none());
}

#[test]
fn account_accessors_delegate() {
    let mut storage = BTreeMap::new();
    storage.insert(felt(1), felt(2));
    let mut account = GenesisAccount::new(felt(7), felt(8));
    account.nonce = Some(felt(3));
    account.storage = Some(storage.clone());
    let alloc = GenesisAllocation::Account(GenesisAccountAlloc::Account(account));
    assert_eq!(alloc.public_key(), Some(felt(7)));
    assert_eq!(alloc.class_hash(), Some(felt(8)));
    assert_eq!(alloc.balance(), None);
    assert_eq!(alloc.nonce(), Some(felt(3)));
    assert_eq!(alloc.storage(), Some(&storage));
}

#[test]
fn dev_account_alloc_exposes_private_key() {
    let dev = DevGenesisAccount::new_with_balance(felt(4), felt(8), U256::from(9u64));
    let alloc: GenesisAllocation = GenesisAllocation::from(dev.clone());
    assert_eq!(alloc, GenesisAllocation::Account(GenesisAccountAlloc::DevAccount(dev.clone())));
    assert_eq!(alloc.public_key(), Some(dev.inner.public_key));
    assert_eq!(alloc.balance(), Some(U256::from(9u64)));
    let inner = GenesisAccountAlloc::DevAccount(dev.clone());
    assert_eq!(inner.private_key(), Some(felt(4)));
    assert_eq!(inner.class_hash(), felt(8));
    let plain = GenesisAccountAlloc::Account(dev.inner.clone());
    assert_eq!(plain.private_key(), None);
    assert_eq!(plain.public_key(), dev.inner.public_key);
}

#[test]
fn addresses_of_distinct_accounts_differ() {
    let mut seen = HashSet::new();
    for k in 1..20u64 {
        assert!(seen.insert(GenesisAccount::new(felt(k), felt(2)).address()));
    }
}

#[test]
fn defaults_are_empty() {
    let contract = GenesisContractAlloc::default();
    assert_eq!(contract.class_hash, None);
    assert_eq!(contract.balance, None);
    let account = GenesisAccount::default();
    assert_eq!(account.salt, Felt::ZERO);
    assert_eq!(account.public_key, Felt::ZERO);
    let dev = DevGenesisAccount::default();
    assert_eq!(dev.private_key, Felt::ZERO);
    assert_eq!(dev.inner, account);
}

#[test]
fn signing_scalars() {
    let order =
        Felt::from_hex("0x0800000000000010ffffffffffffffffb781126dcae7b2321e66a241adc64d2f").unwrap();
    assert!(!is_valid_private_key(&Felt::ZERO));
    assert!(!is_valid_private_key(&order));
    assert!(is_valid_private_key(&Felt::ONE));
    assert!(is_valid_private_key(&(order - Felt::ONE)));
}
