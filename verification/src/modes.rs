//! The three modes, and what each decides for one child wallet.

use vstd::prelude::*;
use crate::account::{AccountId, AssetId};
use crate::error::FundError;
use crate::reclaim::{reclaim_amount, ReclaimFraction};
use crate::transfer::TransferIntent;

verus! {

/// The balance, in base units, below which a child is funded; also the
/// amount of each funding transfer.
pub const FUNDING_THRESHOLD: u64 = 5_000_000;

/// The time units that continual funding sleeps between two passes.
pub const PAUSE_UNITS: u64 = 20;

/// What a run does with the child wallets.
#[derive(Clone, Copy, Debug, PartialEq, Eq, Structural)]
pub enum Mode {
    /// Send the threshold amount to every child, once.
    InitialDistribution,
    /// Watch the children and top up those below the threshold, for ever.
    ContinualFunding,
    /// Sweep a fraction of every child's balance back to the treasury, once.
    Reclaim,
}

/// What `select_mode` returns for the three switches.
pub open spec fn selected(init_dist: bool, cont_fund: bool, reclaim: bool) -> Result<
    Option<Mode>,
    FundError,
> {
    let switches = (if init_dist {
        1nat
    } else {
        0nat
    }) + (if cont_fund {
        1nat
    } else {
        0nat
    }) + (if reclaim {
        1nat
    } else {
        0nat
    });
    if switches > 1 {
        Err(FundError::ConfigurationError)
    } else if init_dist {
        Ok(Some(Mode::InitialDistribution))
    } else if cont_fund {
        Ok(Some(Mode::ContinualFunding))
    } else if reclaim {
        Ok(Some(Mode::Reclaim))
    } else {
        Ok(None)
    }
}

/// The mode that the three switches select. The modes exclude each other:
/// more than one switch is a configuration error. With no switch there is
/// nothing to run.
pub fn select_mode(init_dist: bool, cont_fund: bool, reclaim: bool) -> (r: Result<
    Option<Mode>,
    FundError,
>)
    ensures
        r == selected(init_dist, cont_fund, reclaim),
{
    if (init_dist && cont_fund) || (init_dist && reclaim) || (cont_fund && reclaim) {
        Err(FundError::ConfigurationError)
    } else if init_dist {
        Ok(Some(Mode::InitialDistribution))
    } else if cont_fund {
        Ok(Some(Mode::ContinualFunding))
    } else if reclaim {
        Ok(Some(Mode::Reclaim))
    } else {
        Ok(None)
    }
}

/// All that a run is told: collected once, then handed down.
#[derive(Clone, Debug, PartialEq, Eq)]
pub struct Config {
    /// The secret phrase from which every wallet is derived.
    pub phrase: String,
    /// The asset whose balances are read and moved.
    pub asset: AssetId,
    /// The number of child wallets.
    pub wallets: usize,
    /// The minimum balance of a child, and the amount of a funding transfer.
    pub threshold: u64,
    /// The fraction of a child's balance that a reclaim sweeps back.
    pub fraction: ReclaimFraction,
    /// The time units to sleep between two passes of continual funding.
    pub pause: u64,
}

impl Config {
    /// The configuration with the standard threshold of 5,000,000 base
    /// units, the standard reclaim fraction of 99.9 percent and the standard
    /// pause of 20 time units.
    pub open spec fn standard(phrase: String, asset: AssetId, wallets: usize) -> Config {
        Config {
            phrase,
            asset,
            wallets,
            threshold: FUNDING_THRESHOLD,
            fraction: ReclaimFraction::standard_spec(),
            pause: PAUSE_UNITS,
        }
    }

    /// The configuration for `wallets` child wallets, with the standard
    /// threshold, reclaim fraction and pause. No wallets is a configuration
    /// error.
    pub fn new(phrase: String, asset: AssetId, wallets: usize) -> (r: Result<Config, FundError>)
        ensures
            r == (if wallets == 0 {
                Err(FundError::ConfigurationError)
            } else {
                Ok(Config::standard(phrase, asset, wallets))
            }),
    {
        if wallets == 0 {
            Err(FundError::ConfigurationError)
        } else {
            Ok(
                Config {
                    phrase,
                    asset,
                    wallets,
                    threshold: FUNDING_THRESHOLD,
                    fraction: ReclaimFraction::standard(),
                    pause: PAUSE_UNITS,
                },
            )
        }
    }

    /// The transfer that funds `child` from the treasury.
    pub open spec fn funding(&self, treasury: AccountId, child: AccountId) -> TransferIntent {
        TransferIntent { from: treasury, to: child, amount: self.threshold, asset: self.asset }
    }

    /// What continual funding does for a child that holds `balance`: it
    /// funds the child where the balance is below the threshold, and only
    /// there.
    pub open spec fn top_up(&self, treasury: AccountId, child: AccountId, balance: u64) -> Option<
        TransferIntent,
    > {
        if balance < self.threshold {
            Some(self.funding(treasury, child))
        } else {
            None
        }
    }

    /// What a reclaim does for a child that holds `balance`: it sweeps the
    /// rounded share back unless that share is nothing.
    pub open spec fn sweep(&self, treasury: AccountId, child: AccountId, balance: u64) -> Option<
        TransferIntent,
    > {
        if self.fraction.share(balance as nat) == 0 {
            None
        } else {
            Some(
                TransferIntent {
                    from: child,
                    to: treasury,
                    amount: self.fraction.share(balance as nat) as u64,
                    asset: self.asset,
                },
            )
        }
    }
}

/// Initial distribution, for one child: a transfer of the threshold amount
/// from the treasury to the child, whatever the child holds.
pub fn initial_distribution(config: &Config, treasury: AccountId, child: AccountId) -> (intent:
    TransferIntent)
    ensures
        intent == config.funding(treasury, child),
{
    TransferIntent { from: treasury, to: child, amount: config.threshold, asset: config.asset }
}

/// Continual funding, for one child that holds `balance`: a transfer of the
/// threshold amount from the treasury where the balance is below the
/// threshold; nothing where the child holds the threshold or more.
pub fn continual_funding(
    config: &Config,
    treasury: AccountId,
    child: AccountId,
    balance: u64,
) -> (r: Option<TransferIntent>)
    ensures
        r == config.top_up(treasury, child, balance),
        r is Some <==> balance < config.threshold,
{
    if balance < config.threshold {
        Some(initial_distribution(config, treasury, child))
    } else {
        None
    }
}

/// Reclaim, for one child that holds `balance`: a transfer of the rounded
/// share from the child to the treasury; nothing where the child holds
/// nothing, or where the share rounds to nothing.
pub fn reclaim_funds(config: &Config, treasury: AccountId, child: AccountId, balance: u64) -> (r:
    Option<TransferIntent>)
    ensures
        r == config.sweep(treasury, child, balance),
        r is Some <==> config.fraction.share(balance as nat) > 0,
        balance == 0 ==> r is None,
        r matches Some(intent) ==> 0 < intent.amount <= balance,
{
    if balance == 0 {
        proof {
            use_type_invariant(&config.fraction);
            config.fraction.lemma_share_of_nothing();
        }
        return None;
    }
    let amount = reclaim_amount(balance, config.fraction);
    if amount == 0 {
        None
    } else {
        Some(TransferIntent { from: child, to: treasury, amount, asset: config.asset })
    }
}

} // verus!
