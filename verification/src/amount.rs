//! Amounts: decimal BTC text on the outside, satoshis on the inside.

use crate::error::WalletError;
use bitcoin::{Amount, Denomination};
use vstd::prelude::*;

verus! {

/// The number of satoshis that the decimal BTC text stands for, as
/// `bitcoin::Amount::from_str_in` with the Bitcoin denomination decides it;
/// `None` where that parser rejects the text.
pub uninterp spec fn btc_text_to_sat(text: Seq<char>) -> Option<u64>;

/// The text that `bitcoin::Amount` displays for a number of satoshis.
pub uninterp spec fn sat_to_btc_text(sat: u64) -> Seq<char>;

/// Calls `bitcoin::Amount::from_str_in(text, Denomination::Bitcoin)`. The
/// result is named by `btc_text_to_sat`; beyond the name the contract claims
/// what the parser's first lines show: an empty text and a text with a
/// leading minus sign are always rejected.
#[verifier::external_body]
fn parse_btc(text: &str) -> (r: Option<u64>)
    ensures
        r == btc_text_to_sat(text@),
        text@.len() == 0 || text@[0] == '-' ==> r is None,
{
    match Amount::from_str_in(text, Denomination::Bitcoin) {
        Ok(amount) => Some(amount.to_sat()),
        Err(_) => None,
    }
}

/// Calls `to_string` on `bitcoin::Amount::from_sat(sat)`. The result is named
/// by `sat_to_btc_text`.
#[verifier::external_body]
pub(crate) fn display_btc(sat: u64) -> (r: String)
    ensures
        r@ == sat_to_btc_text(sat),
{
    Amount::from_sat(sat).to_string()
}

/// The verdict on a parsed amount: it must exist and be strictly positive.
pub open spec fn amount_verdict(parsed: Option<u64>) -> Result<u64, WalletError> {
    match parsed {
        Some(sat) if sat > 0 => Ok(sat),
        _ => Err(WalletError::InvalidAmount),
    }
}

/// Accepts a parsed amount only where it is strictly positive.
pub fn judge_amount(parsed: Option<u64>) -> (r: Result<u64, WalletError>)
    ensures
        r == amount_verdict(parsed),
        r is Ok ==> r->Ok_0 > 0,
{
    match parsed {
        Some(sat) => {
            if sat > 0 {
                Ok(sat)
            } else {
                Err(WalletError::InvalidAmount)
            }
        },
        None => Err(WalletError::InvalidAmount),
    }
}

/// Converts decimal BTC text to satoshis, rejecting what is not a positive
/// representable amount.
pub fn check_amount(text: &str) -> (r: Result<u64, WalletError>)
    ensures
        r == amount_verdict(btc_text_to_sat(text@)),
        text@.len() == 0 || text@[0] == '-' ==> r == Err::<u64, WalletError>(
            WalletError::InvalidAmount,
        ),
{
    judge_amount(parse_btc(text))
}

} // verus!
