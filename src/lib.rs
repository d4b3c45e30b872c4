//! Genesis state and table-value codecs of a Starknet execution node.

pub mod felt;
pub mod genesis;
pub mod generator;
pub mod codec;
pub mod world;
pub mod sql;
