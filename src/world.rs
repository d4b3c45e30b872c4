//! Which World contract a command works on.
use starknet_core::types::Felt;
use vstd::prelude::*;

verus! {

#[verifier::external_type_specification]
#[verifier::external_body]
pub struct ExFromStrError(starknet_types_core::felt::FromStrError);

/// The element that `s` writes, in hex with a `0x` prefix or in decimal, if it writes one.
pub uninterp spec fn felt_parsed(s: Seq<char>) -> Option<Felt>;

/// Relies on `Felt::from_str`, which reads `0x`-prefixed hex or decimal text and fails
/// on anything else; the result depends on the text alone.
#[verifier::external_body]
fn parse_felt(s: &str) -> (r: Result<Felt, starknet_types_core::felt::FromStrError>)
    ensures
        match r {
            Ok(f) => felt_parsed(s@) == Some(f),
            Err(_) => felt_parsed(s@) is None,
        },
{
    <Felt as std::str::FromStr>::from_str(s)
}

/// Why no World address could be settled on.
#[derive(Debug, Clone, Copy, PartialEq, Eq)]
pub enum WorldAddressError {
    /// The address given by the environment is not a field element.
    InvalidAddress,
}

/// The options that pick a World contract.
#[derive(Debug, Clone)]
pub struct WorldOptions {
    /// The address of the World contract.
    pub world_address: Option<Felt>,
    /// Whether the migration is performed on a world the caller does not own.
    pub guest: bool,
    /// Whitelisted namespaces; all namespaces when empty.
    pub namespaces: Vec<String>,
}

impl WorldOptions {
    /// The World address: the one given explicitly, else the one the environment
    /// gives, read as a field element, else none.
    pub open spec fn spec_address(&self, env_world_address: Option<Seq<char>>) -> Result<Option<Felt>, WorldAddressError> {
        match self.world_address {
            Some(address) => Ok(Some(address)),
            None => match env_world_address {
                None => Ok(None),
                Some(text) => match felt_parsed(text) {
                    Some(address) => Ok(Some(address)),
                    None => Err(WorldAddressError::InvalidAddress),
                },
            },
        }
    }

    /// Settles on the World address; `env_world_address` is the address that the
    /// environment's metadata holds, if any.
    pub fn address(&self, env_world_address: Option<&str>) -> (r: Result<Option<Felt>, WorldAddressError>)
        ensures
            r == self.spec_address(
                match env_world_address {
                    Some(text) => Some(text@),
                    None => None,
                },
            ),
    {
        if let Some(world_address) = self.world_address {
            Ok(Some(world_address))
        } else if let Some(text) = env_world_address {
            match parse_felt(text) {
                Ok(address) => Ok(Some(address)),
                Err(_) => Err(WorldAddressError::InvalidAddress),
            }
        } else {
            Ok(None)
        }
    }
}

} // verus!
