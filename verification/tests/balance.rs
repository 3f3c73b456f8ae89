use endpoint_manager::error::{FailureKind, WalletError};
use endpoint_manager::gateway::{GatewayCall, GatewayFailure, GatewayReply, Step};
use endpoint_manager::rpc_client::{Credentials, RpcClientData, WalletHandle};
use endpoint_manager::wallet::{
    get_balance, balance_finish, classify_balance_failure, BalanceResponse,
};

fn endpoint() -> RpcClientData {
    RpcClientData::new(
        "http://127.0.0.1:8332".to_string(),
        Credentials { user: "u".to_string(), password: "p".to_string() },
    )
}

#[test]
fn balance_is_asked_through_the_wallet_handle() {
    assert_eq!(
        get_balance(&endpoint(), "alice"),
        Step::Call(GatewayCall::GetBalance {
            handle: WalletHandle {
                wallet_name: "alice".to_string(),
                url: "http://127.0.0.1:8332/wallet/alice".to_string(),
                auth: Credentials { user: "u".to_string(), password: "p".to_string() },
            }
        })
    );
}

#[test]
fn balance_of_a_bad_name_ends_at_once() {
    assert_eq!(
        get_balance(&endpoint(), "a/b"),
        Step::Done(Err(WalletError::InvalidWalletName))
    );
}

#[test]
fn balance_of_an_unused_wallet_is_zero() {
    assert_eq!(
        balance_finish("alice", GatewayReply::Balance(0)),
        Ok(BalanceResponse {
            wallet: "alice".to_string(),
            satoshis: 0,
            balance: "0 BTC".to_string(),
        })
    );
}

#[test]
fn balance_is_rendered_in_decimal_btc() {
    let whole = balance_finish("alice", GatewayReply::Balance(200_000_000)).unwrap();
    assert_eq!(whole.satoshis, 200_000_000);
    assert_eq!(whole.balance, "2 BTC");
    let part = balance_finish("bob", GatewayReply::Balance(150_000)).unwrap();
    assert_eq!(part.wallet, "bob");
    assert_eq!(part.satoshis, 150_000);
    assert_eq!(part.balance, "0.00150000 BTC");
}

#[test]
fn unknown_wallet_is_told_apart_from_other_failures() {
    let reply = |kind| {
        GatewayReply::Failed(GatewayFailure { kind, message: "Requested wallet does not exist".to_string() })
    };
    assert_eq!(
        balance_finish("ghost", reply(FailureKind::Rpc { code: -18 })),
        Err(WalletError::WalletNotFound)
    );
    for kind in [FailureKind::Rpc { code: -4 }, FailureKind::Transport, FailureKind::Malformed] {
        assert_eq!(balance_finish("ghost", reply(kind)), Err(WalletError::GatewayError { kind }));
    }
}

#[test]
fn balance_failure_table() {
    assert_eq!(
        classify_balance_failure(FailureKind::Rpc { code: -18 }),
        WalletError::WalletNotFound
    );
    for kind in [FailureKind::Rpc { code: 18 }, FailureKind::Rpc { code: -17 }, FailureKind::Transport]
    {
        assert_eq!(classify_balance_failure(kind), WalletError::GatewayError { kind });
    }
}

#[test]
fn balance_of_an_unreachable_gateway() {
    assert_eq!(
        balance_finish("alice", GatewayReply::Unreachable),
        Err(WalletError::GatewayUnreachable)
    );
}

#[test]
fn balance_reply_of_the_wrong_shape_is_unexpected() {
    assert_eq!(
        balance_finish("alice", GatewayReply::Ack),
        Err(WalletError::UnexpectedResponse)
    );
    assert_eq!(
        balance_finish("alice", GatewayReply::Address("x".to_string())),
        Err(WalletError::UnexpectedResponse)
    );
}
