use endpoint_manager::error::{ErrorClass, FailureKind, WalletError};

#[test]
fn validation_errors_map_to_400() {
    for e in [
        WalletError::InvalidWalletName,
        WalletError::InvalidAddress,
        WalletError::InvalidAddressNetwork,
        WalletError::InvalidAmount,
    ] {
        assert_eq!(e.class(), ErrorClass::Validation);
        assert_eq!(e.status_code(), 400);
    }
}

fn gateway_failures(kind: FailureKind) -> Vec<WalletError> {
    vec![
        WalletError::DirectoryListingFailed { kind },
        WalletError::LoadedListingFailed { kind },
        WalletError::WalletCreationFailed { kind },
        WalletError::WalletLoadFailed { kind },
        WalletError::AddressGenerationFailed { kind },
        WalletError::GatewayError { kind },
        WalletError::TransferFailed { kind, cause: "Insufficient funds".to_string() },
    ]
}

#[test]
fn gateway_errors_map_to_500() {
    for kind in [FailureKind::Transport, FailureKind::Rpc { code: -6 }, FailureKind::Malformed] {
        for e in gateway_failures(kind) {
            assert_eq!(e.status_code(), 500);
        }
    }
    assert_eq!(WalletError::GatewayUnreachable.status_code(), 500);
    assert_eq!(WalletError::WalletNotFound.status_code(), 500);
    assert_eq!(WalletError::UnexpectedResponse.status_code(), 500);
}

#[test]
fn gateway_errors_take_the_class_of_their_failure() {
    for e in gateway_failures(FailureKind::Transport) {
        assert_eq!(e.class(), ErrorClass::GatewayUnavailable);
    }
    for e in gateway_failures(FailureKind::Rpc { code: -4 }) {
        assert_eq!(e.class(), ErrorClass::GatewayRejected);
    }
    for e in gateway_failures(FailureKind::Malformed) {
        assert_eq!(e.class(), ErrorClass::InternalInvariantViolation);
    }
    assert_eq!(FailureKind::Transport.class(), ErrorClass::GatewayUnavailable);
    assert_eq!(FailureKind::Rpc { code: 0 }.class(), ErrorClass::GatewayRejected);
    assert_eq!(FailureKind::Malformed.class(), ErrorClass::InternalInvariantViolation);
    assert_eq!(WalletError::GatewayUnreachable.class(), ErrorClass::GatewayUnavailable);
    assert_eq!(WalletError::WalletNotFound.class(), ErrorClass::GatewayRejected);
    assert_eq!(WalletError::UnexpectedResponse.class(), ErrorClass::InternalInvariantViolation);
}

#[test]
fn messages_are_fixed_texts() {
    let kind = FailureKind::Transport;
    assert_eq!(WalletError::InvalidWalletName.message(), "Invalid wallet name");
    assert_eq!(WalletError::GatewayUnreachable.message(), "Failed to create wallet RPC client");
    assert_eq!(
        WalletError::DirectoryListingFailed { kind }.message(),
        "Failed to list wallet directories."
    );
    assert_eq!(
        WalletError::LoadedListingFailed { kind }.message(),
        "Failed to list loaded wallets."
    );
    assert_eq!(WalletError::WalletCreationFailed { kind }.message(), "Failed to create wallet.");
    assert_eq!(WalletError::WalletLoadFailed { kind }.message(), "Failed to load wallet.");
    assert_eq!(
        WalletError::AddressGenerationFailed { kind }.message(),
        "Failed to generate new address."
    );
    assert_eq!(WalletError::WalletNotFound.message(), "Wallet not found");
    assert_eq!(WalletError::GatewayError { kind }.message(), "Gateway request failed");
    assert_eq!(WalletError::InvalidAddress.message(), "Invalid Bitcoin address");
    assert_eq!(WalletError::InvalidAddressNetwork.message(), "Invalid network for address");
    assert_eq!(WalletError::InvalidAmount.message(), "Invalid amount");
    assert_eq!(WalletError::UnexpectedResponse.message(), "Unexpected gateway response");
}

#[test]
fn transfer_failure_message_wraps_the_cause() {
    let e = WalletError::TransferFailed {
        kind: FailureKind::Rpc { code: -6 },
        cause: "Insufficient funds".to_string(),
    };
    assert_eq!(e.message(), "Transaction failed: Insufficient funds");
    let e = WalletError::TransferFailed { kind: FailureKind::Transport, cause: String::new() };
    assert_eq!(e.message(), "Transaction failed: ");
}
