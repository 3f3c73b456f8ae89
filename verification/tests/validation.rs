use endpoint_manager::address::{check_address, judge_address, Network};
use endpoint_manager::amount::{check_amount, judge_amount};
use endpoint_manager::error::WalletError;

const MAINNET_SEGWIT: &str = "bc1qar0srrr7xfkvy5l643lydnw9re59gtzzwf5mdq";
const MAINNET_LEGACY: &str = "1A1zP1eP5QGefi2DMPTfTL5SLmv7DivfNa";
const TESTNET_SEGWIT: &str = "tb1qw508d6qejxtdg4y5r3zarvary0c5xw7kxpjzsx";

#[test]
fn mainnet_addresses_pass_on_mainnet() {
    assert_eq!(check_address(MAINNET_SEGWIT, Network::Bitcoin), Ok(()));
    assert_eq!(check_address(MAINNET_LEGACY, Network::Bitcoin), Ok(()));
}

#[test]
fn testnet_address_passes_on_testnet_and_signet() {
    assert_eq!(check_address(TESTNET_SEGWIT, Network::Testnet), Ok(()));
    assert_eq!(check_address(TESTNET_SEGWIT, Network::Testnet4), Ok(()));
    assert_eq!(check_address(TESTNET_SEGWIT, Network::Signet), Ok(()));
}

#[test]
fn address_of_another_network_is_refused() {
    assert_eq!(
        check_address(TESTNET_SEGWIT, Network::Bitcoin),
        Err(WalletError::InvalidAddressNetwork)
    );
    assert_eq!(
        check_address(MAINNET_SEGWIT, Network::Testnet),
        Err(WalletError::InvalidAddressNetwork)
    );
    assert_eq!(
        check_address(MAINNET_LEGACY, Network::Regtest),
        Err(WalletError::InvalidAddressNetwork)
    );
    assert_eq!(
        check_address(MAINNET_LEGACY, Network::Testnet4),
        Err(WalletError::InvalidAddressNetwork)
    );
    assert_eq!(
        check_address(TESTNET_SEGWIT, Network::Regtest),
        Err(WalletError::InvalidAddressNetwork)
    );
}

#[test]
fn unparseable_address_is_refused() {
    assert_eq!(check_address("", Network::Bitcoin), Err(WalletError::InvalidAddress));
    assert_eq!(check_address("not an address", Network::Bitcoin), Err(WalletError::InvalidAddress));
    // A mainnet address with its last character changed fails the checksum.
    assert_eq!(
        check_address("bc1qar0srrr7xfkvy5l643lydnw9re59gtzzwf5mdx", Network::Bitcoin),
        Err(WalletError::InvalidAddress)
    );
}

#[test]
fn address_verdict_table() {
    assert_eq!(judge_address(false, false), Err(WalletError::InvalidAddress));
    assert_eq!(judge_address(false, true), Err(WalletError::InvalidAddress));
    assert_eq!(judge_address(true, false), Err(WalletError::InvalidAddressNetwork));
    assert_eq!(judge_address(true, true), Ok(()));
}

#[test]
fn amounts_convert_to_satoshis() {
    assert_eq!(check_amount("1"), Ok(100_000_000));
    assert_eq!(check_amount("0.001"), Ok(100_000));
    assert_eq!(check_amount("0.00000001"), Ok(1));
    assert_eq!(check_amount("21000000"), Ok(2_100_000_000_000_000));
    assert_eq!(check_amount("1.5"), Ok(150_000_000));
}

#[test]
fn zero_amount_is_refused() {
    assert_eq!(check_amount("0"), Err(WalletError::InvalidAmount));
    assert_eq!(check_amount("0.0"), Err(WalletError::InvalidAmount));
    assert_eq!(check_amount("0.00000000"), Err(WalletError::InvalidAmount));
}

#[test]
fn negative_amount_is_refused() {
    assert_eq!(check_amount("-1"), Err(WalletError::InvalidAmount));
    assert_eq!(check_amount("-0.5"), Err(WalletError::InvalidAmount));
    assert_eq!(check_amount("-0"), Err(WalletError::InvalidAmount));
    assert_eq!(check_amount("-"), Err(WalletError::InvalidAmount));
}

#[test]
fn unrepresentable_amount_is_refused() {
    assert_eq!(check_amount(""), Err(WalletError::InvalidAmount));
    assert_eq!(check_amount("abc"), Err(WalletError::InvalidAmount));
    assert_eq!(check_amount("1.2.3"), Err(WalletError::InvalidAmount));
    assert_eq!(check_amount("NaN"), Err(WalletError::InvalidAmount));
    assert_eq!(check_amount("inf"), Err(WalletError::InvalidAmount));
    // Below one satoshi.
    assert_eq!(check_amount("0.000000001"), Err(WalletError::InvalidAmount));
    // More satoshis than 64 bits hold.
    assert_eq!(check_amount("184467440738"), Err(WalletError::InvalidAmount));
}

#[test]
fn amount_verdict_table() {
    assert_eq!(judge_amount(None), Err(WalletError::InvalidAmount));
    assert_eq!(judge_amount(Some(0)), Err(WalletError::InvalidAmount));
    assert_eq!(judge_amount(Some(1)), Ok(1));
    assert_eq!(judge_amount(Some(u64::MAX)), Ok(u64::MAX));
}
