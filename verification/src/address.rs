//! Destination addresses and the networks they belong to.

use crate::error::WalletError;
use bitcoin::address::NetworkUnchecked;
use vstd::prelude::*;

verus! {

/// The network that the gateway is configured for.
#[derive(Clone, Copy, Debug, PartialEq, Eq, Structural)]
pub enum Network {
    Bitcoin,
    Testnet,
    Testnet4,
    Signet,
    Regtest,
}

/// Whether `text` is the encoding of some Bitcoin address, as the `bitcoin`
/// crate's address parser decides it.
pub uninterp spec fn address_well_formed(text: Seq<char>) -> bool;

/// Whether `text` parses as an address that the `bitcoin` crate accepts for
/// `network`.
pub uninterp spec fn address_on_network(text: Seq<char>, network: Network) -> bool;

/// Runs `str::parse::<bitcoin::Address<NetworkUnchecked>>` on `text`. The
/// contract only names the outcome: success is `address_well_formed`.
#[verifier::external_body]
fn parses_as_address(text: &str) -> (r: bool)
    ensures
        r == address_well_formed(text@),
{
    text.parse::<bitcoin::Address<NetworkUnchecked>>().is_ok()
}

/// Parses `text` and asks `bitcoin::Address::is_valid_for_network` whether
/// the address belongs to `network`; a text that does not parse belongs to
/// none. The contract only names the outcome: `address_on_network`.
#[verifier::external_body]
fn valid_for_network(text: &str, network: Network) -> (r: bool)
    ensures
        r == address_on_network(text@, network),
{
    let outside = match network {
        Network::Bitcoin => bitcoin::Network::Bitcoin,
        Network::Testnet => bitcoin::Network::Testnet,
        Network::Testnet4 => bitcoin::Network::Testnet4,
        Network::Signet => bitcoin::Network::Signet,
        Network::Regtest => bitcoin::Network::Regtest,
    };
    match text.parse::<bitcoin::Address<NetworkUnchecked>>() {
        Ok(address) => address.is_valid_for_network(outside),
        Err(_) => false,
    }
}

/// The verdict on a destination, given what the parser and the network test
/// said: an unparseable text is `InvalidAddress`, a parseable one for another
/// network is `InvalidAddressNetwork`.
pub open spec fn address_verdict(well_formed: bool, on_network: bool) -> Result<(), WalletError> {
    if !well_formed {
        Err(WalletError::InvalidAddress)
    } else if !on_network {
        Err(WalletError::InvalidAddressNetwork)
    } else {
        Ok(())
    }
}

/// Turns the two parser outcomes into the verdict.
pub fn judge_address(well_formed: bool, on_network: bool) -> (r: Result<(), WalletError>)
    ensures
        r == address_verdict(well_formed, on_network),
{
    if !well_formed {
        Err(WalletError::InvalidAddress)
    } else if !on_network {
        Err(WalletError::InvalidAddressNetwork)
    } else {
        Ok(())
    }
}

/// Validates a destination address against the configured network.
pub fn check_address(text: &str, network: Network) -> (r: Result<(), WalletError>)
    ensures
        r == address_verdict(address_well_formed(text@), address_on_network(text@, network)),
{
    let well_formed = parses_as_address(text);
    let on_network = if well_formed {
        valid_for_network(text, network)
    } else {
        false
    };
    judge_address(well_formed, on_network)
}

} // verus!
