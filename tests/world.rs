use katana_genesis::world::{WorldAddressError, WorldOptions};
use starknet_core::types::Felt;

fn options(world_address: Option<Felt>) -> WorldOptions {
    WorldOptions { world_address, guest: false, namespaces: vec![] }
}

#[test]
fn world_address_from_args() {
    let cmd = options(Some(Felt::from_hex("0x0").unwrap()));
    assert_eq!(cmd.address(None).unwrap(), Some(Felt::from_hex("0x0").unwrap()));
}

#[test]
fn world_address_from_env_metadata() {
    let cmd = options(None);
    assert_eq!(cmd.address(Some("0x0")).unwrap(), Some(Felt::from_hex("0x0").unwrap()));
}

#[test]
fn world_address_from_both() {
    let cmd = options(Some(Felt::from_hex("0x1").unwrap()));
    assert_eq!(cmd.address(Some("0x0")).unwrap(), Some(Felt::from_hex("0x1").unwrap()));
}

#[test]
fn world_address_from_neither() {
    let cmd = options(None);
    assert!(cmd.address(None).is_ok());
    assert_eq!(cmd.address(None), Ok(None));
}

#[test]
fn world_address_decimal_and_invalid() {
    let cmd = options(None);
    assert_eq!(cmd.address(Some("1337")), Ok(Some(Felt::from(1337u64))));
    assert_eq!(cmd.address(Some("0x2a")), Ok(Some(Felt::from(42u64))));
    assert_eq!(cmd.address(Some("world")), Err(WorldAddressError::InvalidAddress));
}
