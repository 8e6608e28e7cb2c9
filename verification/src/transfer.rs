//! The transfer executor's guard: no transfer is submitted that the source
//! cannot pay.

use vstd::prelude::*;
use crate::account::{AccountId, AssetId};
use crate::error::FundError;

verus! {

/// A transfer that is meant, until it is checked against the source's
/// balance and submitted.
#[derive(Clone, Copy, Debug, PartialEq, Eq)]
pub struct TransferIntent {
    pub from: AccountId,
    pub to: AccountId,
    pub amount: u64,
    pub asset: AssetId,
}

/// The guard's verdict on `intent` when the source holds `balance`: the
/// intent itself where the balance covers the amount, else
/// `InsufficientFunds` with both numbers.
pub open spec fn guarded(intent: TransferIntent, balance: u64) -> Result<
    TransferIntent,
    FundError,
> {
    if balance < intent.amount {
        Err(FundError::InsufficientFunds { requested: intent.amount, available: balance })
    } else {
        Ok(intent)
    }
}

/// Checks `intent` against the balance that the ledger reported for its
/// source. Only an intent that this returns may be submitted: with a
/// balance below the amount the transfer is refused here, and never reaches
/// the ledger.
pub fn send_funds(intent: TransferIntent, balance: u64) -> (r: Result<TransferIntent, FundError>)
    ensures
        r == guarded(intent, balance),
        balance < intent.amount <==> r is Err,
{
    if balance < intent.amount {
        Err(FundError::InsufficientFunds { requested: intent.amount, available: balance })
    } else {
        Ok(intent)
    }
}

} // verus!
