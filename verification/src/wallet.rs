//! The three wallet operations: registration, balance lookup and transfer.
//!
//! Each operation is driven from outside: the function that bears its name
//! names the first gateway call (or finishes at once where validation
//! fails), and the caller feeds every reply back until nothing more is asked.

use crate::address::{
    address_on_network, address_verdict, address_well_formed, check_address, Network,
};
use crate::amount::{amount_verdict, btc_text_to_sat, check_amount, display_btc, sat_to_btc_text};
use crate::error::{FailureKind, WalletError};
use crate::gateway::{
    contains_name, creation_of, lists, GatewayCall, GatewayReply, Step, RPC_WALLET_NOT_FOUND,
};
use crate::rpc_client::{handle_outcome, valid_wallet_name, RpcClientData, WalletHandle};
use vstd::prelude::*;

verus! {

/// A request to make sure that a wallet exists and to get an address of it.
#[derive(Debug, PartialEq, Eq)]
pub struct RegisterRequest {
    pub wallet_name: String,
    pub passphrase: String,
}

/// The fresh receiving address of the wallet.
#[derive(Debug, PartialEq, Eq)]
pub struct RegisterResponse {
    pub wallet_id: String,
}

/// Where a registration stands: which reply it is waiting for.
#[derive(Clone, Copy, Debug, PartialEq, Eq, Structural)]
pub enum RegisterState {
    ListingDirectory,
    ListingLoaded,
    Loading,
    Creating,
    RequestingAddress,
    Finished,
}

impl RegisterState {
    /// How far a registration has come. Every step moves strictly forward.
    pub open spec fn rank(self) -> nat {
        match self {
            RegisterState::ListingDirectory => 0,
            RegisterState::ListingLoaded => 1,
            RegisterState::Loading => 2,
            RegisterState::Creating => 2,
            RegisterState::RequestingAddress => 3,
            RegisterState::Finished => 4,
        }
    }
}

/// A registration that ends with `error`.
pub open spec fn register_fails(error: WalletError) -> (RegisterState, Step<RegisterResponse>) {
    (RegisterState::Finished, Step::Done(Err(error)))
}

/// The request for a fresh address, once the wallet is known to be loaded:
/// it needs the wallet's handle, and ends the registration without one.
pub open spec fn address_request(handle: Result<WalletHandle, WalletError>) -> (
    RegisterState,
    Step<RegisterResponse>,
) {
    match handle {
        Ok(h) => (
            RegisterState::RequestingAddress,
            Step::Call(GatewayCall::GetNewAddress { handle: h }),
        ),
        Err(e) => register_fails(e),
    }
}

/// The registration workflow as a transition function. `handle` is the
/// wallet's handle as derived from the endpoint, `address_valid` says whether
/// an address in `reply` is a valid one for the configured network.
pub open spec fn register_next(
    wallet_name: String,
    state: RegisterState,
    reply: GatewayReply,
    handle: Result<WalletHandle, WalletError>,
    address_valid: bool,
) -> (RegisterState, Step<RegisterResponse>) {
    match (state, reply) {
        (RegisterState::Finished, _) => register_fails(WalletError::UnexpectedResponse),
        (_, GatewayReply::Unreachable) => register_fails(WalletError::GatewayUnreachable),
        (RegisterState::ListingDirectory, GatewayReply::Names(directory)) => {
            if lists(directory@, wallet_name@) {
                (RegisterState::ListingLoaded, Step::Call(GatewayCall::ListWallets))
            } else {
                (RegisterState::Creating, Step::Call(creation_of(wallet_name)))
            }
        },
        (RegisterState::ListingDirectory, GatewayReply::Failed(failure)) => register_fails(
            WalletError::DirectoryListingFailed { kind: failure.kind },
        ),
        (RegisterState::ListingLoaded, GatewayReply::Names(loaded)) => {
            if lists(loaded@, wallet_name@) {
                address_request(handle)
            } else {
                (
                    RegisterState::Loading,
                    Step::Call(GatewayCall::LoadWallet { wallet: wallet_name }),
                )
            }
        },
        (RegisterState::ListingLoaded, GatewayReply::Failed(failure)) => register_fails(
            WalletError::LoadedListingFailed { kind: failure.kind },
        ),
        (RegisterState::Loading, GatewayReply::Ack) => address_request(handle),
        (RegisterState::Loading, GatewayReply::Failed(failure)) => register_fails(
            WalletError::WalletLoadFailed { kind: failure.kind },
        ),
        (RegisterState::Creating, GatewayReply::Ack) => address_request(handle),
        (RegisterState::Creating, GatewayReply::Failed(failure)) => register_fails(
            WalletError::WalletCreationFailed { kind: failure.kind },
        ),
        (RegisterState::RequestingAddress, GatewayReply::Address(address)) => {
            if address_valid {
                (RegisterState::Finished, Step::Done(Ok(RegisterResponse { wallet_id: address })))
            } else {
                register_fails(WalletError::UnexpectedResponse)
            }
        },
        (RegisterState::RequestingAddress, GatewayReply::Failed(failure)) => register_fails(
            WalletError::AddressGenerationFailed { kind: failure.kind },
        ),
        _ => register_fails(WalletError::UnexpectedResponse),
    }
}

fn fail_registration(error: WalletError) -> (r: (RegisterState, Step<RegisterResponse>))
    ensures
        r == register_fails(error),
{
    (RegisterState::Finished, Step::Done(Err(error)))
}

fn request_address(handle: Result<WalletHandle, WalletError>) -> (r: (
    RegisterState,
    Step<RegisterResponse>,
))
    ensures
        r == address_request(handle),
{
    match handle {
        Ok(h) => (
            RegisterState::RequestingAddress,
            Step::Call(GatewayCall::GetNewAddress { handle: h }),
        ),
        Err(e) => fail_registration(e),
    }
}

/// Starts a registration: a name that cannot be embedded in a wallet path is
/// refused before the gateway is asked anything; otherwise the first call
/// lists the wallet directory.
pub fn register_wallet(request: &RegisterRequest) -> (r: (RegisterState, Step<RegisterResponse>))
    ensures
        valid_wallet_name(request.wallet_name@) ==> r == (
            RegisterState::ListingDirectory,
            Step::<RegisterResponse>::Call(GatewayCall::ListWalletDir),
        ),
        !valid_wallet_name(request.wallet_name@) ==> r == register_fails(
            WalletError::InvalidWalletName,
        ),
{
    if RpcClientData::check_wallet_name(request.wallet_name.as_str()) {
        (RegisterState::ListingDirectory, Step::Call(GatewayCall::ListWalletDir))
    } else {
        fail_registration(WalletError::InvalidWalletName)
    }
}

/// One step of a registration, given the handle and the verdict on the
/// address that the caller worked out beforehand.
pub fn register_decide(
    wallet_name: &String,
    state: RegisterState,
    reply: GatewayReply,
    handle: Result<WalletHandle, WalletError>,
    address_valid: bool,
) -> (r: (RegisterState, Step<RegisterResponse>))
    ensures
        r == register_next(*wallet_name, state, reply, handle, address_valid),
{
    if let RegisterState::Finished = state {
        return fail_registration(WalletError::UnexpectedResponse);
    }
    if let GatewayReply::Unreachable = reply {
        return fail_registration(WalletError::GatewayUnreachable);
    }
    match state {
        RegisterState::ListingDirectory => match reply {
            GatewayReply::Names(directory) => {
                if contains_name(&directory, wallet_name) {
                    (RegisterState::ListingLoaded, Step::Call(GatewayCall::ListWallets))
                } else {
                    (
                        RegisterState::Creating,
                        Step::Call(
                            GatewayCall::CreateWallet {
                                wallet: wallet_name.clone(),
                                disable_private_keys: None,
                                blank: None,
                                passphrase: Some(wallet_name.clone()),
                                avoid_reuse: None,
                            },
                        ),
                    )
                }
            },
            GatewayReply::Failed(failure) => fail_registration(
                WalletError::DirectoryListingFailed { kind: failure.kind },
            ),
            _ => fail_registration(WalletError::UnexpectedResponse),
        },
        RegisterState::ListingLoaded => match reply {
            GatewayReply::Names(loaded) => {
                if contains_name(&loaded, wallet_name) {
                    request_address(handle)
                } else {
                    (
                        RegisterState::Loading,
                        Step::Call(GatewayCall::LoadWallet { wallet: wallet_name.clone() }),
                    )
                }
            },
            GatewayReply::Failed(failure) => fail_registration(
                WalletError::LoadedListingFailed { kind: failure.kind },
            ),
            _ => fail_registration(WalletError::UnexpectedResponse),
        },
        RegisterState::Loading => match reply {
            GatewayReply::Ack => request_address(handle),
            GatewayReply::Failed(failure) => fail_registration(
                WalletError::WalletLoadFailed { kind: failure.kind },
            ),
            _ => fail_registration(WalletError::UnexpectedResponse),
        },
        RegisterState::Creating => match reply {
            GatewayReply::Ack => request_address(handle),
            GatewayReply::Failed(failure) => fail_registration(
                WalletError::WalletCreationFailed { kind: failure.kind },
            ),
            _ => fail_registration(WalletError::UnexpectedResponse),
        },
        RegisterState::RequestingAddress => match reply {
            GatewayReply::Address(address) => {
                if address_valid {
                    (
                        RegisterState::Finished,
                        Step::Done(Ok(RegisterResponse { wallet_id: address })),
                    )
                } else {
                    fail_registration(WalletError::UnexpectedResponse)
                }
            },
            GatewayReply::Failed(failure) => fail_registration(
                WalletError::AddressGenerationFailed { kind: failure.kind },
            ),
            _ => fail_registration(WalletError::UnexpectedResponse),
        },
        RegisterState::Finished => fail_registration(WalletError::UnexpectedResponse),
    }
}

/// Whether `reply` carries an address that is valid for `network`.
pub open spec fn carries_valid_address(reply: GatewayReply, network: Network) -> bool {
    reply matches GatewayReply::Address(address) && address_well_formed(address@)
        && address_on_network(address@, network)
}

/// One step of a registration: takes the reply to the call that was asked
/// for in `state` and says what comes next.
pub fn register_advance(
    rpc: &RpcClientData,
    network: Network,
    request: &RegisterRequest,
    state: RegisterState,
    reply: GatewayReply,
) -> (r: (RegisterState, Step<RegisterResponse>))
    ensures
        exists|handle: Result<WalletHandle, WalletError>|
            handle_outcome(*rpc, request.wallet_name@, handle) && r == register_next(
                request.wallet_name,
                state,
                reply,
                handle,
                carries_valid_address(reply, network),
            ),
        r.1 matches Step::Done(Ok(response)) ==> {
            &&& state == RegisterState::RequestingAddress
            &&& reply == GatewayReply::Address(response.wallet_id)
            &&& address_well_formed(response.wallet_id@)
            &&& address_on_network(response.wallet_id@, network)
        },
{
    let handle = rpc.new_client_for_wallet(request.wallet_name.as_str());
    let address_valid = match &reply {
        GatewayReply::Address(address) => check_address(address.as_str(), network).is_ok(),
        _ => false,
    };
    register_decide(&request.wallet_name, state, reply, handle, address_valid)
}

/// The balance of one wallet, in satoshis and as the gateway's decimal text.
#[derive(Debug, PartialEq, Eq)]
pub struct BalanceResponse {
    pub wallet: String,
    pub satoshis: u64,
    pub balance: String,
}

/// Starts a balance query: derives the wallet's handle and asks for the
/// balance through it, or ends at once where no handle can be derived.
pub fn get_balance(rpc: &RpcClientData, wallet_name: &str) -> (r: Step<BalanceResponse>)
    ensures
        match r {
            Step::Call(GatewayCall::GetBalance { handle }) => handle_outcome(
                *rpc,
                wallet_name@,
                Ok(handle),
            ),
            Step::Done(Err(e)) => handle_outcome(*rpc, wallet_name@, Err(e)),
            _ => false,
        },
{
    match rpc.new_client_for_wallet(wallet_name) {
        Ok(handle) => Step::Call(GatewayCall::GetBalance { handle }),
        Err(e) => Step::Done(Err(e)),
    }
}

/// The error that a failed balance call is reported as: the node's
/// "wallet not found" code is told apart from every other failure.
pub open spec fn balance_failure(kind: FailureKind) -> WalletError {
    if kind == (FailureKind::Rpc { code: RPC_WALLET_NOT_FOUND }) {
        WalletError::WalletNotFound
    } else {
        WalletError::GatewayError { kind }
    }
}

/// Classifies a failed balance call.
pub fn classify_balance_failure(kind: FailureKind) -> (r: WalletError)
    ensures
        r == balance_failure(kind),
{
    match kind {
        FailureKind::Rpc { code } => {
            if code == RPC_WALLET_NOT_FOUND {
                WalletError::WalletNotFound
            } else {
                WalletError::GatewayError { kind }
            }
        },
        _ => WalletError::GatewayError { kind },
    }
}

/// What a balance query answers to each reply.
pub open spec fn balance_outcome(
    wallet_name: Seq<char>,
    reply: GatewayReply,
    r: Result<BalanceResponse, WalletError>,
) -> bool {
    match reply {
        GatewayReply::Balance(sat) => {
            &&& r matches Ok(response)
            &&& response.wallet@ == wallet_name
            &&& response.satoshis == sat
            &&& response.balance@ == sat_to_btc_text(sat)
        },
        GatewayReply::Unreachable => r == Err::<BalanceResponse, WalletError>(
            WalletError::GatewayUnreachable,
        ),
        GatewayReply::Failed(failure) => r == Err::<BalanceResponse, WalletError>(
            balance_failure(failure.kind),
        ),
        _ => r == Err::<BalanceResponse, WalletError>(WalletError::UnexpectedResponse),
    }
}

/// Ends a balance query with the gateway's reply.
pub fn balance_finish(wallet_name: &str, reply: GatewayReply) -> (r: Result<
    BalanceResponse,
    WalletError,
>)
    ensures
        balance_outcome(wallet_name@, reply, r),
{
    match reply {
        GatewayReply::Balance(sat) => Ok(
            BalanceResponse {
                wallet: String::from_str(wallet_name),
                satoshis: sat,
                balance: display_btc(sat),
            },
        ),
        GatewayReply::Unreachable => Err(WalletError::GatewayUnreachable),
        GatewayReply::Failed(failure) => Err(classify_balance_failure(failure.kind)),
        _ => Err(WalletError::UnexpectedResponse),
    }
}

/// A request to pay `amount` (decimal BTC) to `address`.
#[derive(Debug, PartialEq, Eq)]
pub struct SendToAddressRequest {
    pub address: String,
    pub amount: String,
    pub comment: Option<String>,
}

/// The id of the broadcast transaction.
#[derive(Debug, PartialEq, Eq)]
pub struct SendResponse {
    pub transaction_id: String,
}

/// The name of the wallet that every transfer is paid from.
pub open spec fn source_wallet() -> Seq<char> {
    "default"@
}

/// The plan for a transfer, given the verdicts on its address and amount and
/// the source wallet's handle: the first failure among the three ends it,
/// in that order; otherwise the payment is handed to the gateway.
pub open spec fn transfer_plan(
    request: SendToAddressRequest,
    address: Result<(), WalletError>,
    amount: Result<u64, WalletError>,
    handle: Result<WalletHandle, WalletError>,
) -> Step<SendResponse> {
    match (address, amount, handle) {
        (Err(e), _, _) => Step::Done(Err(e)),
        (Ok(_), Err(e), _) => Step::Done(Err(e)),
        (Ok(_), Ok(_), Err(e)) => Step::Done(Err(e)),
        (Ok(_), Ok(sat), Ok(h)) => Step::Call(
            GatewayCall::SendToAddress {
                handle: h,
                address: request.address,
                amount_sat: sat,
                comment: request.comment,
            },
        ),
    }
}

/// Draws up the plan for a transfer from the three verdicts.
pub fn plan_transfer(
    request: &SendToAddressRequest,
    address: Result<(), WalletError>,
    amount: Result<u64, WalletError>,
    handle: Result<WalletHandle, WalletError>,
) -> (r: Step<SendResponse>)
    ensures
        r == transfer_plan(*request, address, amount, handle),
{
    if let Err(e) = address {
        return Step::Done(Err(e));
    }
    let sat: u64 = match amount {
        Ok(sat) => sat,
        Err(e) => {
            return Step::Done(Err(e));
        },
    };
    let h = match handle {
        Ok(h) => h,
        Err(e) => {
            return Step::Done(Err(e));
        },
    };
    let comment = match &request.comment {
        Some(text) => Some(text.clone()),
        None => None,
    };
    Step::Call(
        GatewayCall::SendToAddress {
            handle: h,
            address: request.address.clone(),
            amount_sat: sat,
            comment,
        },
    )
}

/// Starts a transfer. The address is validated against `network` and the
/// amount is converted to satoshis before anything is handed to the gateway;
/// a request that fails either test ends at once.
pub fn send_to_address(rpc: &RpcClientData, network: Network, request: &SendToAddressRequest) -> (r:
    Step<SendResponse>)
    ensures
        exists|handle: Result<WalletHandle, WalletError>|
            handle_outcome(*rpc, source_wallet(), handle) && r == transfer_plan(
                *request,
                address_verdict(
                    address_well_formed(request.address@),
                    address_on_network(request.address@, network),
                ),
                amount_verdict(btc_text_to_sat(request.amount@)),
                handle,
            ),
        !address_well_formed(request.address@) ==> r == Step::<SendResponse>::Done(
            Err(WalletError::InvalidAddress),
        ),
        address_well_formed(request.address@) && !address_on_network(request.address@, network)
            ==> r == Step::<SendResponse>::Done(Err(WalletError::InvalidAddressNetwork)),
        address_well_formed(request.address@) && address_on_network(request.address@, network)
            && (request.amount@.len() == 0 || request.amount@[0] == '-' || btc_text_to_sat(
            request.amount@,
        ) is None || btc_text_to_sat(request.amount@) == Some(0u64)) ==> r == Step::<
            SendResponse,
        >::Done(Err(WalletError::InvalidAmount)),
        r matches Step::Call(call) ==> {
            &&& call matches GatewayCall::SendToAddress { handle, address, amount_sat, comment }
            &&& handle_outcome(*rpc, source_wallet(), Ok(handle))
            &&& address == request.address
            &&& comment == request.comment
            &&& amount_sat > 0
            &&& btc_text_to_sat(request.amount@) == Some(amount_sat)
        },
{
    let address = check_address(request.address.as_str(), network);
    let amount = check_amount(request.amount.as_str());
    let handle = rpc.new_client_for_wallet("default");
    let ghost derived = handle;
    let r = plan_transfer(request, address, amount, handle);
    assert(handle_outcome(*rpc, source_wallet(), derived));
    r
}

/// The characters of a transaction id.
pub open spec fn is_hex_digit(c: char) -> bool {
    ('0' <= c && c <= '9') || ('a' <= c && c <= 'f') || ('A' <= c && c <= 'F')
}

/// A transaction id is 64 hexadecimal characters.
pub open spec fn is_transaction_id(text: Seq<char>) -> bool {
    text.len() == 64 && forall|i: int| 0 <= i < text.len() ==> is_hex_digit(#[trigger] text[i])
}

/// Decides whether `text` has the shape of a transaction id.
pub fn check_transaction_id(text: &str) -> (r: bool)
    ensures
        r == is_transaction_id(text@),
{
    let n: usize = text.unicode_len();
    if n != 64 {
        return false;
    }
    let mut i: usize = 0;
    while i < n
        invariant
            n == text@.len(),
            i <= n,
            forall|j: int| 0 <= j < i ==> is_hex_digit(#[trigger] text@[j]),
        decreases n - i,
    {
        let c = text.get_char(i);
        if !(('0' <= c && c <= '9') || ('a' <= c && c <= 'f') || ('A' <= c && c <= 'F')) {
            return false;
        }
        i += 1;
    }
    true
}

/// What a transfer answers to each reply: the id that the gateway reported,
/// unchanged, where it has the shape of one; the gateway's cause where the
/// payment was refused; `GatewayUnreachable` where nothing could be sent.
pub open spec fn send_outcome(reply: GatewayReply) -> Result<SendResponse, WalletError> {
    match reply {
        GatewayReply::TransactionId(id) => {
            if is_transaction_id(id@) {
                Ok(SendResponse { transaction_id: id })
            } else {
                Err(WalletError::UnexpectedResponse)
            }
        },
        GatewayReply::Unreachable => Err(WalletError::GatewayUnreachable),
        GatewayReply::Failed(failure) => Err(
            WalletError::TransferFailed { kind: failure.kind, cause: failure.message },
        ),
        _ => Err(WalletError::UnexpectedResponse),
    }
}

/// Ends a transfer with the gateway's reply.
pub fn send_finish(reply: GatewayReply) -> (r: Result<SendResponse, WalletError>)
    ensures
        r == send_outcome(reply),
        r matches Ok(response) ==> reply == GatewayReply::TransactionId(response.transaction_id)
            && is_transaction_id(response.transaction_id@),
{
    match reply {
        GatewayReply::TransactionId(id) => {
            if check_transaction_id(id.as_str()) {
                Ok(SendResponse { transaction_id: id })
            } else {
                Err(WalletError::UnexpectedResponse)
            }
        },
        GatewayReply::Unreachable => Err(WalletError::GatewayUnreachable),
        GatewayReply::Failed(failure) => Err(
            WalletError::TransferFailed { kind: failure.kind, cause: failure.message },
        ),
        _ => Err(WalletError::UnexpectedResponse),
    }
}

} // verus!
