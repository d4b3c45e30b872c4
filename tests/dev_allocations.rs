use std::collections::HashSet;

use alloy_primitives::U256;
use katana_genesis::generator::{default_account_class_hash, DevAllocationsGenerator};
use starknet_core::types::Felt;

#[test]
fn default_class_hash() {
    let expected =
        Felt::from_hex("0x07dc7899aa655b0aae51eadff6d801a58e97dd99cf4666ee59e704249e51adf2").unwrap();
    assert_eq!(default_account_class_hash(), expected);
    let accounts = DevAllocationsGenerator::new(1).generate();
    assert_eq!(accounts[0].1.inner.class_hash, expected);
}

#[test]
fn generation_is_deterministic() {
    let a = DevAllocationsGenerator::new(3).generate();
    let b = DevAllocationsGenerator::new(3).generate();
    assert_eq!(a.len(), 3);
    assert_eq!(a, b);
}

#[test]
fn generation_is_prefix_stable() {
    let five = DevAllocationsGenerator::new(5).with_seed([7u8; 32]).generate();
    let three = DevAllocationsGenerator::new(3).with_seed([7u8; 32]).generate();
    assert_eq!(&five[..3], &three[..]);
}

#[test]
fn private_keys_are_masked() {
    for (address, account) in DevAllocationsGenerator::new(50).generate() {
        assert!(account.private_key.to_bytes_be()[0] <= 7);
        assert_eq!(address, account.address());
    }
}

#[test]
fn hundred_distinct_addresses() {
    let accounts = DevAllocationsGenerator::new(100).generate();
    let addresses: HashSet<_> = accounts.iter().map(|(a, _)| *a).collect();
    assert_eq!(accounts.len(), 100);
    assert_eq!(addresses.len(), 100);
}

#[test]
fn zero_total_is_empty() {
    assert!(DevAllocationsGenerator::new(0).generate().is_empty());
}

#[test]
fn seeds_chain_through_keys() {
    let first = DevAllocationsGenerator::new(2).generate();
    let next = DevAllocationsGenerator::new(1)
        .with_seed(first[0].1.private_key.to_bytes_be())
        .generate();
    assert_eq!(next[0].1, first[1].1);
}

#[test]
fn seed_changes_keys() {
    let a = DevAllocationsGenerator::new(1).generate();
    let b = DevAllocationsGenerator::new(1).with_seed([1u8; 32]).generate();
    assert_ne!(a[0].1.private_key, b[0].1.private_key);
    assert_ne!(a[0].0, b[0].0);
}

#[test]
fn balance_and_class_apply_to_all() {
    let accounts = DevAllocationsGenerator::new(4)
        .with_balance(U256::from(1000u64))
        .with_class(Felt::from(42u64))
        .generate();
    for (_, account) in &accounts {
        assert_eq!(account.inner.balance, Some(U256::from(1000u64)));
        assert_eq!(account.inner.class_hash, Felt::from(42u64));
        assert_eq!(account.inner.salt, Felt::from(666u64));
    }
    let plain = DevAllocationsGenerator::new(4).with_class(Felt::from(42u64)).generate();
    for i in 0..4 {
        assert_eq!(plain[i].1.private_key, accounts[i].1.private_key);
        assert_eq!(plain[i].1.inner.balance, None);
    }
}

#[test]
fn checked_generation_agrees() {
    let generator = DevAllocationsGenerator::new(4).with_seed([3u8; 32]);
    assert_eq!(generator.try_generate(), Some(generator.generate()));
    assert_eq!(DevAllocationsGenerator::new(0).try_generate(), Some(vec![]));
}
