//! The vocabulary shared with whoever performs the gateway calls: the calls
//! a workflow may ask for, and the replies it understands.

use crate::error::{FailureKind, WalletError};
use crate::rpc_client::WalletHandle;
use vstd::prelude::*;

verus! {

/// The RPC error code with which the node reports an unknown wallet.
pub const RPC_WALLET_NOT_FOUND: i32 = -18;

/// A failed gateway call: its kind and the cause as the gateway worded it.
#[derive(Debug, PartialEq, Eq)]
pub struct GatewayFailure {
    pub kind: FailureKind,
    pub message: String,
}

/// One call to the gateway, with everything that is handed to it. Options
/// that a call does not name are left at the gateway's defaults.
#[derive(Debug, PartialEq, Eq)]
pub enum GatewayCall {
    /// List the wallets that exist, loaded or not.
    ListWalletDir,
    /// List the wallets that are loaded.
    ListWallets,
    /// Load an existing wallet.
    LoadWallet { wallet: String },
    /// Create a wallet.
    CreateWallet {
        wallet: String,
        disable_private_keys: Option<bool>,
        blank: Option<bool>,
        passphrase: Option<String>,
        avoid_reuse: Option<bool>,
    },
    /// Mint a fresh receiving address in the handle's wallet.
    GetNewAddress { handle: WalletHandle },
    /// Ask for the balance of the handle's wallet.
    GetBalance { handle: WalletHandle },
    /// Pay `amount_sat` satoshis from the handle's wallet to `address`.
    SendToAddress { handle: WalletHandle, address: String, amount_sat: u64, comment: Option<String> },
}

/// The call that creates `wallet`: the name also fills the passphrase slot,
/// and every other option is left to the gateway.
pub open spec fn creation_of(wallet: String) -> GatewayCall {
    GatewayCall::CreateWallet {
        wallet,
        disable_private_keys: None,
        blank: None,
        passphrase: Some(wallet),
        avoid_reuse: None,
    }
}

/// What came back from a gateway call.
#[derive(Debug, PartialEq, Eq)]
pub enum GatewayReply {
    /// The names of wallets, from either of the two listings.
    Names(Vec<String>),
    /// The call succeeded and has nothing to report.
    Ack,
    /// A fresh receiving address.
    Address(String),
    /// A balance in satoshis.
    Balance(u64),
    /// The id of a broadcast transaction.
    TransactionId(String),
    /// No client could be set up for the handle, so nothing was sent.
    Unreachable,
    /// The call was made and failed.
    Failed(GatewayFailure),
}

/// What a workflow wants next: another gateway call, or nothing more.
#[derive(Debug, PartialEq, Eq)]
pub enum Step<T> {
    Call(GatewayCall),
    Done(Result<T, WalletError>),
}

/// Whether `name` occurs in `names`, by exact match.
pub open spec fn lists(names: Seq<String>, name: Seq<char>) -> bool {
    exists|i: int| 0 <= i < names.len() && (#[trigger] names[i])@ == name
}

/// Looks `name` up in a list of wallet names, by exact match.
pub fn contains_name(names: &Vec<String>, name: &String) -> (r: bool)
    ensures
        r == lists(names@, name@),
{
    let mut i: usize = 0;
    while i < names.len()
        invariant
            i <= names.len(),
            forall|j: int| 0 <= j < i ==> (#[trigger] names@[j])@ != name@,
        decreases names.len() - i,
    {
        if names[i] == *name {
            return true;
        }
        i += 1;
    }
    false
}

} // verus!
