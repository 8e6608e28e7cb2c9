//! A run of one mode over the child wallets, as a machine: it says what to
//! ask of the ledger next, takes the ledger's answer, and decides.
//!
//! The machine never talks to the ledger itself. Its caller performs the
//! pending action and hands back the event that came of it.

use vstd::prelude::*;
use crate::account::{AccountId, AssetId};
use crate::deriver::{derived, treasury, treasury_of};
use crate::error::FundError;
use crate::modes::{continual_funding, initial_distribution, reclaim_funds, Config, Mode};
use crate::transfer::{guarded, send_funds, TransferIntent};

verus! {

/// Who pays for a transfer, and so has to sign it.
#[derive(Clone, Copy, Debug, PartialEq, Eq, Structural)]
pub enum Payer {
    /// The treasury wallet.
    Treasury,
    /// The child wallet `index`.
    Child { index: usize },
}

/// What the caller is to do for the run.
#[derive(Clone, Copy, Debug, PartialEq, Eq)]
pub enum Action {
    /// Ask the ledger what `account` holds of `asset`.
    QueryBalance { account: AccountId, asset: AssetId },
    /// Submit the transfer, signed by the payer, with the default
    /// transaction policy.
    Submit { intent: TransferIntent, payer: Payer },
    /// Sleep for so many time units.
    Sleep { units: u64 },
    /// Nothing: the run has ended well.
    Finish,
    /// Nothing: the run has ended with this error.
    Abort { error: FundError },
}

/// What came of an action.
#[derive(Clone, Copy, Debug, PartialEq, Eq, Structural)]
pub enum Event {
    /// The ledger reported this balance.
    Balance { amount: u64 },
    /// The ledger could not be reached, or did not answer in time.
    NetworkFailed,
    /// The ledger does not know the asset.
    AssetUnknown,
    /// The ledger accepted the transfer.
    Submitted,
    /// The ledger rejected the transfer.
    Rejected,
    /// The sleep is over.
    Woke,
}

impl Event {
    /// The error that the event reports, if it reports one.
    pub open spec fn failure(self) -> Option<FundError> {
        match self {
            Event::NetworkFailed => Some(FundError::NetworkError),
            Event::AssetUnknown => Some(FundError::UnknownAsset),
            Event::Rejected => Some(FundError::TransferRejected),
            _ => None,
        }
    }
}

/// Where a run stands.
#[derive(Clone, Copy, Debug, PartialEq, Eq)]
pub enum Phase {
    /// It waits for the balance of the child `index`.
    AwaitChildBalance { index: usize, child: AccountId },
    /// It means to transfer, and waits for the balance of the source.
    AwaitSourceBalance { index: usize, intent: TransferIntent },
    /// It has found the source's balance sufficient, and waits for the
    /// ledger's word on the transfer.
    AwaitReceipt { index: usize, intent: TransferIntent },
    /// It sleeps between two passes.
    Sleeping,
    /// It has ended well.
    Finished,
    /// It has ended with this error.
    Failed { error: FundError },
}

/// Where a run goes next.
#[derive(Clone, Copy, Debug, PartialEq, Eq)]
pub enum Advance {
    /// To this phase.
    Settled { phase: Phase },
    /// To the child wallet `index`, whose account has to be derived first.
    Enter { index: usize },
}

/// One run of one mode.
#[derive(Clone, Debug, PartialEq, Eq)]
pub struct Run {
    pub config: Config,
    pub mode: Mode,
    pub treasury: AccountId,
    pub phase: Phase,
}

impl Run {
    /// The phase after the last child: continual funding sleeps, the other
    /// modes have finished.
    pub open spec fn end_of_pass(&self) -> Phase {
        match self.mode {
            Mode::ContinualFunding => Phase::Sleeping,
            _ => Phase::Finished,
        }
    }

    /// Where the run goes when the children below `index` are done: to the
    /// child `index`, or past the last child.
    pub open spec fn onward(&self, index: nat) -> Advance {
        if index < self.config.wallets {
            Advance::Enter { index: index as usize }
        } else {
            Advance::Settled { phase: self.end_of_pass() }
        }
    }

    /// The transfer that the mode wants for a child that holds `balance`, if
    /// it wants one.
    pub open spec fn plan(&self, child: AccountId, balance: u64) -> Option<TransferIntent> {
        match self.mode {
            Mode::InitialDistribution => Some(self.config.funding(self.treasury, child)),
            Mode::ContinualFunding => self.config.top_up(self.treasury, child, balance),
            Mode::Reclaim => self.config.sweep(self.treasury, child, balance),
        }
    }

    /// The event answers the action that is pending: a balance or a failed
    /// query answers a query, the ledger's word or a failure to reach it
    /// answers a submission, waking answers sleep, and nothing answers a
    /// run that has ended.
    pub open spec fn answered_by(&self, event: Event) -> bool {
        match self.phase {
            Phase::AwaitChildBalance { .. } | Phase::AwaitSourceBalance { .. } => event is Balance
                || event is NetworkFailed || event is AssetUnknown,
            Phase::AwaitReceipt { .. } => event is Submitted || event is Rejected
                || event is NetworkFailed,
            Phase::Sleeping => event is Woke,
            Phase::Finished | Phase::Failed { .. } => false,
        }
    }

    /// Where the run goes on `event`, as far as that can be said without
    /// deriving an account. An event that does not answer the pending action
    /// leaves the run where it is. A failure that the ledger reports ends
    /// the run. A child's balance leads to the transfer that the mode wants
    /// for it, or to the next child; the source's balance leads to the
    /// submission, if the guard lets the transfer pass; an accepted transfer
    /// leads to the next child; waking leads to the first.
    pub open spec fn advanced(&self, event: Event) -> Advance {
        if !self.answered_by(event) {
            Advance::Settled { phase: self.phase }
        } else if let Some(error) = event.failure() {
            Advance::Settled { phase: Phase::Failed { error } }
        } else {
            match self.phase {
                Phase::AwaitChildBalance { index, child } => match self.plan(
                    child,
                    event->amount,
                ) {
                    Some(intent) => Advance::Settled {
                        phase: Phase::AwaitSourceBalance { index, intent },
                    },
                    None => self.onward(index as nat + 1),
                },
                Phase::AwaitSourceBalance { index, intent } => match guarded(
                    intent,
                    event->amount,
                ) {
                    Ok(checked) => Advance::Settled {
                        phase: Phase::AwaitReceipt { index, intent: checked },
                    },
                    Err(error) => Advance::Settled { phase: Phase::Failed { error } },
                },
                Phase::AwaitReceipt { index, .. } => self.onward(index as nat + 1),
                _ => self.onward(0),
            }
        }
    }

    /// The phase in which the run takes up the child `index`, given what
    /// deriving its account gave: initial distribution means to fund it at
    /// once, the other modes first ask what it holds. A failed derivation
    /// ends the run.
    pub open spec fn entered(&self, index: usize, child: Result<AccountId, FundError>) -> Phase {
        match child {
            Err(error) => Phase::Failed { error },
            Ok(account) => match self.mode {
                Mode::InitialDistribution => Phase::AwaitSourceBalance {
                    index,
                    intent: self.config.funding(self.treasury, account),
                },
                _ => Phase::AwaitChildBalance { index, child: account },
            },
        }
    }

    /// The phase that `advance` leads to, with the account of a child that
    /// is entered derived from the phrase.
    pub open spec fn settled(&self, advance: Advance) -> Phase {
        match advance {
            Advance::Settled { phase } => phase,
            Advance::Enter { index } => self.entered(
                index,
                derived(self.config.phrase@, index as nat),
            ),
        }
    }

    /// Who pays for a transfer that concerns the child `index`: the child in
    /// a reclaim, the treasury in the modes that fund.
    pub open spec fn payer(&self, index: usize) -> Payer {
        if self.mode == Mode::Reclaim {
            Payer::Child { index }
        } else {
            Payer::Treasury
        }
    }

    /// The phase of the run after `event`.
    pub open spec fn next_phase(&self, event: Event) -> Phase {
        self.settled(self.advanced(event))
    }

    /// The action that the run waits for.
    pub open spec fn pending_action(&self) -> Action {
        match self.phase {
            Phase::AwaitChildBalance { child, .. } => Action::QueryBalance {
                account: child,
                asset: self.config.asset,
            },
            Phase::AwaitSourceBalance { intent, .. } => Action::QueryBalance {
                account: intent.from,
                asset: intent.asset,
            },
            Phase::AwaitReceipt { index, intent } => Action::Submit {
                intent,
                payer: self.payer(index),
            },
            Phase::Sleeping => Action::Sleep { units: self.config.pause },
            Phase::Finished => Action::Finish,
            Phase::Failed { error } => Action::Abort { error },
        }
    }

    /// The run of `mode` with the given treasury, at its start: the first
    /// child taken up.
    pub open spec fn begun(config: Config, mode: Mode, treasury: AccountId) -> Run {
        let run = Run { config, mode, treasury, phase: Phase::Finished };
        Run { phase: run.settled(run.onward(0)), ..run }
    }

    /// The run of `mode` at its start, with the treasury derived from the
    /// phrase. A phrase that yields no treasury wallet gives no run.
    pub open spec fn started(config: Config, mode: Mode) -> Result<Run, FundError> {
        match treasury_of(config.phrase@) {
            Err(error) => Err(error),
            Ok(treasury) => Ok(Run::begun(config, mode, treasury)),
        }
    }

    /// The run after `event`.
    pub open spec fn after(self, event: Event) -> Run {
        Run { phase: self.next_phase(event), ..self }
    }

    /// The run after the events, taken first to last.
    pub open spec fn after_all(self, events: Seq<Event>) -> Run
        decreases events.len(),
    {
        if events.len() == 0 {
            self
        } else {
            self.after_all(events.drop_last()).after(events.last())
        }
    }

    /// The transfers that the ledger accepted in the course of the events:
    /// one for each `Submitted` that came while a transfer was pending.
    pub open spec fn submitted(self, events: Seq<Event>) -> Seq<TransferIntent>
        decreases events.len(),
    {
        if events.len() == 0 {
            Seq::empty()
        } else {
            let earlier = self.submitted(events.drop_last());
            match (self.after_all(events.drop_last()).phase, events.last()) {
                (Phase::AwaitReceipt { intent, .. }, Event::Submitted) => earlier.push(intent),
                _ => earlier,
            }
        }
    }

    /// The run is busy with a transfer: it waits for the source's balance,
    /// or for the ledger's word on the transfer.
    pub open spec fn transferring(&self) -> bool {
        self.phase is AwaitSourceBalance || self.phase is AwaitReceipt
    }

    /// The run has ended, well or not.
    pub open spec fn ended(&self) -> bool {
        self.phase is Finished || self.phase is Failed
    }

    /// The child that the run is busy with, if it is busy with one.
    pub open spec fn current_index(&self) -> Option<usize> {
        match self.phase {
            Phase::AwaitChildBalance { index, .. } => Some(index),
            Phase::AwaitSourceBalance { index, .. } => Some(index),
            Phase::AwaitReceipt { index, .. } => Some(index),
            _ => None,
        }
    }

    /// The account is that of the child `index`.
    pub open spec fn is_child(&self, index: usize, account: AccountId) -> bool {
        derived(self.config.phrase@, index as nat) == Ok::<AccountId, FundError>(account)
    }

    /// The transfer `intent` is one that the mode makes for the child
    /// `index`: of the configured asset; a funding of the threshold amount
    /// from the treasury to the child, or, in a reclaim, a sweep of
    /// something from the child to the treasury.
    pub open spec fn makes(&self, index: usize, intent: TransferIntent) -> bool {
        &&& intent.asset == self.config.asset
        &&& self.mode == Mode::Reclaim ==> intent.to == self.treasury && intent.amount > 0
            && self.is_child(index, intent.from)
        &&& self.mode != Mode::Reclaim ==> intent.from == self.treasury && intent.amount
            == self.config.threshold && self.is_child(index, intent.to)
    }

    /// What holds of a run from its start to its end: it is busy only with
    /// children that exist, each under the account derived for its index,
    /// and with transfers that its mode makes; only continual funding
    /// sleeps, and it never finishes; initial distribution asks for no
    /// child's balance.
    pub open spec fn wf(&self) -> bool {
        &&& self.config.fraction.valid()
        &&& match self.phase {
            Phase::AwaitChildBalance { index, child } => index < self.config.wallets
                && self.mode != Mode::InitialDistribution && self.is_child(index, child),
            Phase::AwaitSourceBalance { index, intent } => index < self.config.wallets
                && self.makes(index, intent),
            Phase::AwaitReceipt { index, intent } => index < self.config.wallets && self.makes(
                index,
                intent,
            ),
            Phase::Sleeping => self.mode == Mode::ContinualFunding,
            Phase::Finished => self.mode != Mode::ContinualFunding,
            Phase::Failed { .. } => true,
        }
    }

    /// The action that the run waits for.
    pub fn pending(&self) -> (action: Action)
        ensures
            action == self.pending_action(),
    {
        match self.phase {
            Phase::AwaitChildBalance { child, .. } => Action::QueryBalance {
                account: child,
                asset: self.config.asset,
            },
            Phase::AwaitSourceBalance { intent, .. } => Action::QueryBalance {
                account: intent.from,
                asset: intent.asset,
            },
            Phase::AwaitReceipt { index, intent } => Action::Submit {
                intent,
                payer: match self.mode {
                    Mode::Reclaim => Payer::Child { index },
                    _ => Payer::Treasury,
                },
            },
            Phase::Sleeping => Action::Sleep { units: self.config.pause },
            Phase::Finished => Action::Finish,
            Phase::Failed { error } => Action::Abort { error },
        }
    }

    /// Where the run goes when the children below `index` are done.
    pub fn proceed(&self, index: usize) -> (next: Advance)
        ensures
            next == self.onward(index as nat),
    {
        if index < self.config.wallets {
            Advance::Enter { index }
        } else {
            match self.mode {
                Mode::ContinualFunding => Advance::Settled { phase: Phase::Sleeping },
                _ => Advance::Settled { phase: Phase::Finished },
            }
        }
    }

    /// Where the run goes when the child `index` is done.
    fn leave(&self, index: usize) -> (next: Advance)
        ensures
            next == self.onward(index as nat + 1),
    {
        if index < usize::MAX {
            self.proceed(index + 1)
        } else {
            self.proceed(index)
        }
    }

    /// Decides where the run goes on `event`, up to the point where the
    /// account of the next child is needed.
    pub fn advance(&self, event: Event) -> (next: Advance)
        ensures
            next == self.advanced(event),
    {
        match self.phase {
            Phase::AwaitChildBalance { index, child } => match event {
                Event::Balance { amount } => {
                    let plan = match self.mode {
                        Mode::InitialDistribution => Some(
                            initial_distribution(&self.config, self.treasury, child),
                        ),
                        Mode::ContinualFunding => continual_funding(
                            &self.config,
                            self.treasury,
                            child,
                            amount,
                        ),
                        Mode::Reclaim => reclaim_funds(&self.config, self.treasury, child, amount),
                    };
                    match plan {
                        Some(intent) => Advance::Settled {
                            phase: Phase::AwaitSourceBalance { index, intent },
                        },
                        None => self.leave(index),
                    }
                },
                Event::NetworkFailed => Advance::Settled {
                    phase: Phase::Failed { error: FundError::NetworkError },
                },
                Event::AssetUnknown => Advance::Settled {
                    phase: Phase::Failed { error: FundError::UnknownAsset },
                },
                _ => Advance::Settled { phase: self.phase },
            },
            Phase::AwaitSourceBalance { index, intent } => match event {
                Event::Balance { amount } => match send_funds(intent, amount) {
                    Ok(checked) => Advance::Settled {
                        phase: Phase::AwaitReceipt { index, intent: checked },
                    },
                    Err(error) => Advance::Settled { phase: Phase::Failed { error } },
                },
                Event::NetworkFailed => Advance::Settled {
                    phase: Phase::Failed { error: FundError::NetworkError },
                },
                Event::AssetUnknown => Advance::Settled {
                    phase: Phase::Failed { error: FundError::UnknownAsset },
                },
                _ => Advance::Settled { phase: self.phase },
            },
            Phase::AwaitReceipt { index, .. } => match event {
                Event::Submitted => self.leave(index),
                Event::Rejected => Advance::Settled {
                    phase: Phase::Failed { error: FundError::TransferRejected },
                },
                Event::NetworkFailed => Advance::Settled {
                    phase: Phase::Failed { error: FundError::NetworkError },
                },
                _ => Advance::Settled { phase: self.phase },
            },
            Phase::Sleeping => match event {
                Event::Woke => self.proceed(0),
                _ => Advance::Settled { phase: self.phase },
            },
            Phase::Finished => Advance::Settled { phase: self.phase },
            Phase::Failed { .. } => Advance::Settled { phase: self.phase },
        }
    }

    /// Takes up the child `index`, given what deriving its account gave.
    pub fn enter(&self, index: usize, child: Result<AccountId, FundError>) -> (phase: Phase)
        ensures
            phase == self.entered(index, child),
    {
        match child {
            Err(error) => Phase::Failed { error },
            Ok(account) => match self.mode {
                Mode::InitialDistribution => Phase::AwaitSourceBalance {
                    index,
                    intent: initial_distribution(&self.config, self.treasury, account),
                },
                _ => Phase::AwaitChildBalance { index, child: account },
            },
        }
    }

    /// Follows `advance` to a phase, deriving the account of the child that
    /// is entered.
    pub fn settle(&self, advance: Advance) -> (phase: Phase)
        ensures
            phase == self.settled(advance),
    {
        match advance {
            Advance::Settled { phase } => phase,
            Advance::Enter { index } => {
                let child = crate::deriver::derive(self.config.phrase.as_str(), index);
                self.enter(index, child)
            },
        }
    }

    /// Takes the event that came of the pending action, moves the run on,
    /// and returns the action that is pending now.
    pub fn step(&mut self, event: Event) -> (action: Action)
        ensures
            final(self).config == old(self).config,
            final(self).mode == old(self).mode,
            final(self).treasury == old(self).treasury,
            final(self).phase == old(self).next_phase(event),
            action == final(self).pending_action(),
    {
        let next = self.advance(event);
        let phase = self.settle(next);
        self.phase = phase;
        self.pending()
    }

    /// Starts a run of `mode` that funds from, or sweeps to, the given
    /// treasury: takes up the first child. The first action is then pending.
    pub fn begin(config: Config, mode: Mode, treasury: AccountId) -> (run: Run)
        ensures
            run == Run::begun(config, mode, treasury),
    {
        let mut run = Run { config, mode, treasury, phase: Phase::Finished };
        let first = run.proceed(0);
        let phase = run.settle(first);
        run.phase = phase;
        run
    }

    /// Starts a run of `mode`: derives the treasury's account from the
    /// phrase and takes up the first child. The first action is then
    /// pending.
    pub fn start(config: Config, mode: Mode) -> (r: Result<Run, FundError>)
        ensures
            r == Run::started(config, mode),
    {
        match treasury(config.phrase.as_str()) {
            Ok(account) => Ok(Run::begin(config, mode, account)),
            Err(error) => Err(error),
        }
    }

    /// The child that the run is busy with, if it is busy with one.
    pub fn index(&self) -> (r: Option<usize>)
        ensures
            r == self.current_index(),
    {
        match self.phase {
            Phase::AwaitChildBalance { index, .. } => Some(index),
            Phase::AwaitSourceBalance { index, .. } => Some(index),
            Phase::AwaitReceipt { index, .. } => Some(index),
            _ => None,
        }
    }
}

} // verus!
