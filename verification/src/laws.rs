//! What holds of the workflows whatever the gateway answers.

use crate::address::{address_on_network, address_verdict, address_well_formed, Network};
use crate::amount::amount_verdict;
use crate::error::WalletError;
use crate::gateway::{creation_of, lists, GatewayCall, GatewayReply, Step};
use crate::rpc_client::{handle_outcome, RpcClientData, WalletHandle};
use crate::wallet::{
    carries_valid_address, register_fails, register_next, transfer_plan, RegisterResponse,
    RegisterState, SendResponse, SendToAddressRequest,
};
use vstd::prelude::*;

verus! {

/// The gateway calls that a registration makes when it starts in `state` and
/// is fed `replies` in order, up to the step that ends it.
pub open spec fn register_calls(
    wallet_name: String,
    network: Network,
    handle: Result<WalletHandle, WalletError>,
    state: RegisterState,
    replies: Seq<GatewayReply>,
) -> Seq<GatewayCall>
    decreases replies.len(),
{
    if replies.len() == 0 {
        Seq::empty()
    } else {
        let next = register_next(
            wallet_name,
            state,
            replies[0],
            handle,
            carries_valid_address(replies[0], network),
        );
        match next.1 {
            Step::Call(call) => seq![call] + register_calls(
                wallet_name,
                network,
                handle,
                next.0,
                replies.drop_first(),
            ),
            Step::Done(_) => Seq::empty(),
        }
    }
}

/// How many of `calls` create a wallet.
pub open spec fn creations(calls: Seq<GatewayCall>) -> nat
    decreases calls.len(),
{
    if calls.len() == 0 {
        0
    } else {
        let first: nat = if calls[0] is CreateWallet {
            1
        } else {
            0
        };
        first + creations(calls.drop_first())
    }
}

/// Every step of a registration moves strictly forward, a step ends the
/// registration exactly when it asks for no further call, and a finished
/// registration accepts no further reply.
pub proof fn registration_moves_forward(
    wallet_name: String,
    state: RegisterState,
    reply: GatewayReply,
    handle: Result<WalletHandle, WalletError>,
    address_valid: bool,
)
    ensures
        ({
            let next = register_next(wallet_name, state, reply, handle, address_valid);
            &&& state != RegisterState::Finished ==> next.0.rank() > state.rank()
            &&& state == RegisterState::Finished ==> next == register_fails(
                WalletError::UnexpectedResponse,
            )
            &&& next.0 == RegisterState::Finished <==> next.1 is Done
        }),
{
}

/// A registration asks for a wallet to be created in one situation only: the
/// wallet directory has just been listed and does not hold the name. The
/// wallet is then created under that name, with the name in the passphrase
/// slot. A name that the directory holds is never created again.
pub proof fn creates_exactly_the_absent_wallet(
    wallet_name: String,
    state: RegisterState,
    reply: GatewayReply,
    handle: Result<WalletHandle, WalletError>,
    address_valid: bool,
)
    ensures
        ({
            let next = register_next(wallet_name, state, reply, handle, address_valid);
            let absent = state == RegisterState::ListingDirectory && (
            reply matches GatewayReply::Names(directory) && !lists(directory@, wallet_name@));
            &&& (next.1 matches Step::Call(call) && call is CreateWallet) <==> absent
            &&& absent ==> next == (
                RegisterState::Creating,
                Step::<RegisterResponse>::Call(creation_of(wallet_name)),
            )
        }),
{
}

/// A registration succeeds in one situation only: it was waiting for the
/// address, the gateway sent one that is valid for the network, and that
/// address, unchanged, is the answer.
pub proof fn registration_returns_the_gateway_address(
    wallet_name: String,
    state: RegisterState,
    reply: GatewayReply,
    handle: Result<WalletHandle, WalletError>,
    address_valid: bool,
)
    ensures
        ({
            let next = register_next(wallet_name, state, reply, handle, address_valid);
            next.1 matches Step::Done(Ok(response)) ==> {
                &&& state == RegisterState::RequestingAddress
                &&& address_valid
                &&& reply == GatewayReply::Address(response.wallet_id)
            }
        }),
{
}

/// A registration hands on whatever address the gateway minted: where the
/// gateway answers two registrations with two different valid addresses,
/// both succeed and their answers differ as well. That the gateway mints a
/// new address each time is its own business.
pub proof fn different_addresses_give_different_answers(
    wallet_name: String,
    handle: Result<WalletHandle, WalletError>,
    first: String,
    second: String,
)
    requires
        first@ != second@,
    ensures
        ({
            let one = register_next(
                wallet_name,
                RegisterState::RequestingAddress,
                GatewayReply::Address(first),
                handle,
                true,
            );
            let other = register_next(
                wallet_name,
                RegisterState::RequestingAddress,
                GatewayReply::Address(second),
                handle,
                true,
            );
            &&& one.1 matches Step::Done(Ok(a))
            &&& other.1 matches Step::Done(Ok(b))
            &&& a.wallet_id == first
            &&& b.wallet_id == second
            &&& a != b
        }),
{
}

proof fn creations_of_push_front(call: GatewayCall, rest: Seq<GatewayCall>)
    ensures
        creations(seq![call] + rest) == creations(rest) + (if call is CreateWallet {
            1nat
        } else {
            0nat
        }),
{
    let all = seq![call] + rest;
    assert(all.drop_first() =~= rest);
    assert(all[0] == call);
}

proof fn no_creation_after_the_directory(
    wallet_name: String,
    network: Network,
    handle: Result<WalletHandle, WalletError>,
    state: RegisterState,
    replies: Seq<GatewayReply>,
)
    requires
        state != RegisterState::ListingDirectory,
    ensures
        creations(register_calls(wallet_name, network, handle, state, replies)) == 0,
    decreases replies.len(),
{
    if replies.len() > 0 {
        let next = register_next(
            wallet_name,
            state,
            replies[0],
            handle,
            carries_valid_address(replies[0], network),
        );
        if let Step::Call(call) = next.1 {
            let rest = register_calls(wallet_name, network, handle, next.0, replies.drop_first());
            no_creation_after_the_directory(
                wallet_name,
                network,
                handle,
                next.0,
                replies.drop_first(),
            );
            creations_of_push_front(call, rest);
        }
    }
}

/// Whatever the gateway answers, and however long the exchange goes on, a
/// registration creates a wallet at most once. It creates it exactly once
/// where the directory listing does not hold the name, and never where the
/// listing holds it or could not be had.
pub proof fn wallet_is_created_at_most_once(
    wallet_name: String,
    network: Network,
    handle: Result<WalletHandle, WalletError>,
    state: RegisterState,
    replies: Seq<GatewayReply>,
)
    ensures
        ({
            let made: nat = creations(register_calls(wallet_name, network, handle, state, replies));
            let absent = state == RegisterState::ListingDirectory && replies.len() > 0 && (
            replies[0] matches GatewayReply::Names(directory) && !lists(
                directory@,
                wallet_name@,
            ));
            &&& made <= 1
            &&& made == 1 <==> absent
        }),
{
    if state != RegisterState::ListingDirectory {
        no_creation_after_the_directory(wallet_name, network, handle, state, replies);
    } else if replies.len() > 0 {
        let next = register_next(
            wallet_name,
            state,
            replies[0],
            handle,
            carries_valid_address(replies[0], network),
        );
        if let Step::Call(call) = next.1 {
            let rest = register_calls(wallet_name, network, handle, next.0, replies.drop_first());
            no_creation_after_the_directory(
                wallet_name,
                network,
                handle,
                next.0,
                replies.drop_first(),
            );
            creations_of_push_front(call, rest);
        }
    }
}

/// The answer of a registration that starts in `state` and is fed `replies`
/// in order; `None` where the replies run out before it ends.
pub open spec fn register_result(
    wallet_name: String,
    network: Network,
    handle: Result<WalletHandle, WalletError>,
    state: RegisterState,
    replies: Seq<GatewayReply>,
) -> Option<Result<RegisterResponse, WalletError>>
    decreases replies.len(),
{
    if replies.len() == 0 {
        None
    } else {
        let next = register_next(
            wallet_name,
            state,
            replies[0],
            handle,
            carries_valid_address(replies[0], network),
        );
        match next.1 {
            Step::Done(result) => Some(result),
            Step::Call(_) => register_result(
                wallet_name,
                network,
                handle,
                next.0,
                replies.drop_first(),
            ),
        }
    }
}

/// A registration that succeeds answers with an address that is valid for
/// the configured network, and that address is one the gateway sent.
pub proof fn successful_registration_returns_a_valid_address(
    wallet_name: String,
    network: Network,
    handle: Result<WalletHandle, WalletError>,
    state: RegisterState,
    replies: Seq<GatewayReply>,
)
    ensures
        register_result(wallet_name, network, handle, state, replies) matches Some(Ok(response))
            ==> {
            &&& address_well_formed(response.wallet_id@)
            &&& address_on_network(response.wallet_id@, network)
            &&& replies.contains(GatewayReply::Address(response.wallet_id))
        },
    decreases replies.len(),
{
    if replies.len() > 0 {
        let next = register_next(
            wallet_name,
            state,
            replies[0],
            handle,
            carries_valid_address(replies[0], network),
        );
        match next.1 {
            Step::Done(result) => {
                if let Ok(response) = result {
                    assert(replies[0] == GatewayReply::Address(response.wallet_id));
                }
            },
            Step::Call(_) => {
                let rest = replies.drop_first();
                successful_registration_returns_a_valid_address(
                    wallet_name,
                    network,
                    handle,
                    next.0,
                    rest,
                );
                if let Some(Ok(response)) = register_result(
                    wallet_name,
                    network,
                    handle,
                    next.0,
                    rest,
                ) {
                    let found = choose|i: int|
                        0 <= i < rest.len() && rest[i] == GatewayReply::Address(
                            response.wallet_id,
                        );
                    assert(replies[found + 1] == rest[found]);
                }
            },
        }
    }
}

proof fn no_creation_failure_without_creation(
    rpc: RpcClientData,
    wallet_name: String,
    network: Network,
    handle: Result<WalletHandle, WalletError>,
    state: RegisterState,
    replies: Seq<GatewayReply>,
)
    requires
        handle_outcome(rpc, wallet_name@, handle),
        state != RegisterState::ListingDirectory,
        state != RegisterState::Creating,
    ensures
        !(register_result(wallet_name, network, handle, state, replies) matches Some(
            Err(WalletError::WalletCreationFailed { .. }),
        )),
    decreases replies.len(),
{
    if replies.len() > 0 {
        let next = register_next(
            wallet_name,
            state,
            replies[0],
            handle,
            carries_valid_address(replies[0], network),
        );
        if next.1 is Call {
            no_creation_failure_without_creation(
                rpc,
                wallet_name,
                network,
                handle,
                next.0,
                replies.drop_first(),
            );
        }
    }
}

/// Registering a wallet that the directory already holds never fails as a
/// creation: the wallet is looked up, loaded if need be, and asked for an
/// address. `handle` is the wallet's handle as derived from `rpc`.
pub proof fn existing_wallet_never_fails_as_creation(
    rpc: RpcClientData,
    wallet_name: String,
    network: Network,
    handle: Result<WalletHandle, WalletError>,
    replies: Seq<GatewayReply>,
)
    requires
        handle_outcome(rpc, wallet_name@, handle),
        replies.len() > 0,
        replies[0] matches GatewayReply::Names(directory) && lists(directory@, wallet_name@),
    ensures
        !(register_result(
            wallet_name,
            network,
            handle,
            RegisterState::ListingDirectory,
            replies,
        ) matches Some(Err(WalletError::WalletCreationFailed { .. }))),
{
    no_creation_failure_without_creation(
        rpc,
        wallet_name,
        network,
        handle,
        RegisterState::ListingLoaded,
        replies.drop_first(),
    );
}

/// A transfer whose address is valid and whose amount is missing,
/// unrepresentable or not strictly positive is refused as `InvalidAmount`
/// without a gateway call, whatever the handle.
pub proof fn nonpositive_amount_never_reaches_the_gateway(
    request: SendToAddressRequest,
    parsed: Option<u64>,
    handle: Result<WalletHandle, WalletError>,
)
    requires
        parsed is None || parsed == Some(0u64),
    ensures
        transfer_plan(request, Ok(()), amount_verdict(parsed), handle) == Step::<
            SendResponse,
        >::Done(Err(WalletError::InvalidAmount)),
{
}

/// A transfer to an address that parses but belongs to another network is
/// refused as `InvalidAddressNetwork` without a gateway call, whatever the
/// amount and the handle; one to a text that does not parse is refused as
/// `InvalidAddress`.
pub proof fn foreign_address_never_reaches_the_gateway(
    request: SendToAddressRequest,
    well_formed: bool,
    on_network: bool,
    amount: Result<u64, WalletError>,
    handle: Result<WalletHandle, WalletError>,
)
    requires
        !well_formed || !on_network,
    ensures
        transfer_plan(request, address_verdict(well_formed, on_network), amount, handle)
            == Step::<SendResponse>::Done(
            Err(
                if well_formed {
                    WalletError::InvalidAddressNetwork
                } else {
                    WalletError::InvalidAddress
                },
            ),
        ),
{
}

/// A transfer is handed to the gateway only with a strictly positive number
/// of satoshis.
pub proof fn only_positive_amounts_are_sent(
    request: SendToAddressRequest,
    address: Result<(), WalletError>,
    parsed: Option<u64>,
    handle: Result<WalletHandle, WalletError>,
)
    ensures
        transfer_plan(request, address, amount_verdict(parsed), handle) matches Step::Call(call)
            ==> call matches GatewayCall::SendToAddress { amount_sat, .. } && amount_sat > 0
            && parsed == Some(amount_sat),
{
}

} // verus!
