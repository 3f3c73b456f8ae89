//! The structured error taxonomy and its mapping to response codes.

use vstd::prelude::*;

verus! {

/// The four families that every failure belongs to.
#[derive(Clone, Copy, Debug, PartialEq, Eq, Structural)]
pub enum ErrorClass {
    /// Bad address, amount or wallet name: the client's fault.
    Validation,
    /// The gateway could not be reached.
    GatewayUnavailable,
    /// The gateway answered with a structured error.
    GatewayRejected,
    /// The gateway answered with something of an unexpected shape.
    InternalInvariantViolation,
}

/// How a gateway call failed.
#[derive(Clone, Copy, Debug, PartialEq, Eq, Structural)]
pub enum FailureKind {
    /// The request never got an answer.
    Transport,
    /// The node answered with a structured RPC error.
    Rpc { code: i32 },
    /// The node's answer could not be understood.
    Malformed,
}

impl FailureKind {
    /// The family that a failed gateway call belongs to.
    pub open spec fn class_of(self) -> ErrorClass {
        match self {
            FailureKind::Transport => ErrorClass::GatewayUnavailable,
            FailureKind::Rpc { .. } => ErrorClass::GatewayRejected,
            FailureKind::Malformed => ErrorClass::InternalInvariantViolation,
        }
    }

    /// Computes the family of a failed gateway call.
    pub fn class(self) -> (r: ErrorClass)
        ensures
            r == self.class_of(),
    {
        match self {
            FailureKind::Transport => ErrorClass::GatewayUnavailable,
            FailureKind::Rpc { .. } => ErrorClass::GatewayRejected,
            FailureKind::Malformed => ErrorClass::InternalInvariantViolation,
        }
    }
}

/// Every way in which an operation of this crate can fail. An error that
/// stands for a failed gateway call says how the call failed.
#[derive(Debug, PartialEq, Eq)]
pub enum WalletError {
    InvalidWalletName,
    GatewayUnreachable,
    DirectoryListingFailed { kind: FailureKind },
    LoadedListingFailed { kind: FailureKind },
    WalletCreationFailed { kind: FailureKind },
    WalletLoadFailed { kind: FailureKind },
    AddressGenerationFailed { kind: FailureKind },
    WalletNotFound,
    GatewayError { kind: FailureKind },
    InvalidAddress,
    InvalidAddressNetwork,
    InvalidAmount,
    /// The transfer was refused; `cause` is what the gateway reported.
    TransferFailed { kind: FailureKind, cause: String },
    UnexpectedResponse,
}

impl WalletError {
    /// The family of this error.
    pub open spec fn class_of(self) -> ErrorClass {
        match self {
            WalletError::InvalidWalletName
            | WalletError::InvalidAddress
            | WalletError::InvalidAddressNetwork
            | WalletError::InvalidAmount => ErrorClass::Validation,
            WalletError::GatewayUnreachable => ErrorClass::GatewayUnavailable,
            WalletError::WalletNotFound => ErrorClass::GatewayRejected,
            WalletError::UnexpectedResponse => ErrorClass::InternalInvariantViolation,
            WalletError::DirectoryListingFailed { kind }
            | WalletError::LoadedListingFailed { kind }
            | WalletError::WalletCreationFailed { kind }
            | WalletError::WalletLoadFailed { kind }
            | WalletError::AddressGenerationFailed { kind }
            | WalletError::GatewayError { kind }
            | WalletError::TransferFailed { kind, .. } => kind.class_of(),
        }
    }

    /// The HTTP status that the facade answers with: 400 for what the client
    /// got wrong, 500 for everything else.
    pub open spec fn status_of(self) -> u16 {
        if self.class_of() == ErrorClass::Validation {
            400
        } else {
            500
        }
    }

    /// The text of the error envelope.
    pub open spec fn message_of(self) -> Seq<char> {
        match self {
            WalletError::InvalidWalletName => "Invalid wallet name"@,
            WalletError::GatewayUnreachable => "Failed to create wallet RPC client"@,
            WalletError::DirectoryListingFailed { .. } => "Failed to list wallet directories."@,
            WalletError::LoadedListingFailed { .. } => "Failed to list loaded wallets."@,
            WalletError::WalletCreationFailed { .. } => "Failed to create wallet."@,
            WalletError::WalletLoadFailed { .. } => "Failed to load wallet."@,
            WalletError::AddressGenerationFailed { .. } => "Failed to generate new address."@,
            WalletError::WalletNotFound => "Wallet not found"@,
            WalletError::GatewayError { .. } => "Gateway request failed"@,
            WalletError::InvalidAddress => "Invalid Bitcoin address"@,
            WalletError::InvalidAddressNetwork => "Invalid network for address"@,
            WalletError::InvalidAmount => "Invalid amount"@,
            WalletError::TransferFailed { cause, .. } => "Transaction failed: "@ + cause@,
            WalletError::UnexpectedResponse => "Unexpected gateway response"@,
        }
    }

    /// Computes the family of this error.
    pub fn class(&self) -> (r: ErrorClass)
        ensures
            r == self.class_of(),
    {
        match self {
            WalletError::InvalidWalletName => ErrorClass::Validation,
            WalletError::InvalidAddress => ErrorClass::Validation,
            WalletError::InvalidAddressNetwork => ErrorClass::Validation,
            WalletError::InvalidAmount => ErrorClass::Validation,
            WalletError::GatewayUnreachable => ErrorClass::GatewayUnavailable,
            WalletError::WalletNotFound => ErrorClass::GatewayRejected,
            WalletError::UnexpectedResponse => ErrorClass::InternalInvariantViolation,
            WalletError::DirectoryListingFailed { kind } => kind.class(),
            WalletError::LoadedListingFailed { kind } => kind.class(),
            WalletError::WalletCreationFailed { kind } => kind.class(),
            WalletError::WalletLoadFailed { kind } => kind.class(),
            WalletError::AddressGenerationFailed { kind } => kind.class(),
            WalletError::GatewayError { kind } => kind.class(),
            WalletError::TransferFailed { kind, .. } => kind.class(),
        }
    }

    /// Computes the HTTP status for this error.
    pub fn status_code(&self) -> (r: u16)
        ensures
            r == self.status_of(),
            r == 400 || r == 500,
            r == 400 <==> self.class_of() == ErrorClass::Validation,
    {
        match self.class() {
            ErrorClass::Validation => 400,
            _ => 500,
        }
    }

    /// Builds the text of the error envelope.
    pub fn message(&self) -> (r: String)
        ensures
            r@ == self.message_of(),
    {
        match self {
            WalletError::InvalidWalletName => String::from_str("Invalid wallet name"),
            WalletError::GatewayUnreachable => String::from_str(
                "Failed to create wallet RPC client",
            ),
            WalletError::DirectoryListingFailed { .. } => String::from_str(
                "Failed to list wallet directories.",
            ),
            WalletError::LoadedListingFailed { .. } => String::from_str(
                "Failed to list loaded wallets.",
            ),
            WalletError::WalletCreationFailed { .. } => String::from_str(
                "Failed to create wallet.",
            ),
            WalletError::WalletLoadFailed { .. } => String::from_str("Failed to load wallet."),
            WalletError::AddressGenerationFailed { .. } => String::from_str(
                "Failed to generate new address.",
            ),
            WalletError::WalletNotFound => String::from_str("Wallet not found"),
            WalletError::GatewayError { .. } => String::from_str("Gateway request failed"),
            WalletError::InvalidAddress => String::from_str("Invalid Bitcoin address"),
            WalletError::InvalidAddressNetwork => String::from_str("Invalid network for address"),
            WalletError::InvalidAmount => String::from_str("Invalid amount"),
            WalletError::TransferFailed { cause, .. } => String::from_str(
                "Transaction failed: ",
            ).concat(cause.as_str()),
            WalletError::UnexpectedResponse => String::from_str("Unexpected gateway response"),
        }
    }
}

} // verus!
