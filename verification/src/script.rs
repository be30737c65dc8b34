//! Output scripts of addresses and descriptors, as computed by the `bitcoin`
//! and `miniscript` crates.

use crate::types::{bytes_view, BitcoinNetwork};
use bitcoincore_rpc_json::bitcoin::address::Payload;
use bitcoincore_rpc_json::bitcoin::{Address, Network};
use miniscript::bitcoin::secp256k1::Secp256k1;
use miniscript::Descriptor;
use std::str::FromStr;
use vstd::prelude::*;

verus! {

/// The output script that pays to an encoded address of a network; `None`
/// where the text is no address of that network.
pub uninterp spec fn address_script(encoded: Seq<char>, network: BitcoinNetwork) -> Option<Seq<u8>>;

/// Whether the text is an address whose payload is a witness program.
pub uninterp spec fn address_is_witness(encoded: Seq<char>) -> bool;

/// Whether a descriptor has a wildcard key; `None` where the text is no
/// descriptor.
pub uninterp spec fn descriptor_wildcard(expression: Seq<char>) -> Option<bool>;

/// The output script of a descriptor at a child index; `None` where the text
/// is no descriptor or the index cannot be derived.
pub uninterp spec fn descriptor_script(expression: Seq<char>, index: u32) -> Option<Seq<u8>>;

/// Parses the text with `Address::from_str`, checks the address against the
/// network with `require_network`, and returns the bytes of its
/// `script_pubkey`. The result depends on the text and the network alone.
#[verifier::external_body]
pub(crate) fn address_script_pubkey(encoded: &str, network: BitcoinNetwork) -> (script: Option<Vec<u8>>)
    ensures
        bytes_view(script) == address_script(encoded@, network),
{
    let required = match network {
        BitcoinNetwork::Mainnet => Network::Bitcoin,
        BitcoinNetwork::Testnet => Network::Testnet,
        BitcoinNetwork::Signet => Network::Signet,
        BitcoinNetwork::Regtest => Network::Regtest,
    };
    let address = Address::from_str(encoded).ok()?.require_network(required).ok()?;
    Some(address.script_pubkey().as_bytes().to_vec())
}

/// Parses the text with `Address::from_str` and tells whether `payload` of
/// the address is `Payload::WitnessProgram`; `false` where the text does not
/// parse.
#[verifier::external_body]
pub(crate) fn address_has_witness_program(encoded: &str) -> (witness: bool)
    ensures
        witness == address_is_witness(encoded@),
{
    match Address::from_str(encoded) {
        Ok(address) => matches!(address.assume_checked().payload(), Payload::WitnessProgram(_)),
        Err(_) => false,
    }
}

/// Parses the text with `Descriptor::parse_descriptor` and returns
/// `has_wildcard` of the descriptor.
#[verifier::external_body]
pub(crate) fn descriptor_has_wildcard(expression: &str) -> (wildcard: Option<bool>)
    ensures
        wildcard == descriptor_wildcard(expression@),
{
    match Descriptor::parse_descriptor(&Secp256k1::signing_only(), expression) {
        Ok((descriptor, _)) => Some(descriptor.has_wildcard()),
        Err(_) => None,
    }
}

/// Parses the text with `Descriptor::parse_descriptor`, derives the child at
/// `index` with `derived_descriptor`, and returns the bytes of its
/// `script_pubkey`.
#[verifier::external_body]
pub(crate) fn descriptor_script_pubkey(expression: &str, index: u32) -> (script: Option<Vec<u8>>)
    ensures
        bytes_view(script) == descriptor_script(expression@, index),
{
    let (descriptor, _) = Descriptor::parse_descriptor(&Secp256k1::signing_only(), expression).ok()?;
    let derived = descriptor.derived_descriptor(&Secp256k1::verification_only(), index).ok()?;
    Some(derived.script_pubkey().as_bytes().to_vec())
}

} // verus!
