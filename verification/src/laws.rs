//! What holds of every run, whatever the ledger answers.

use vstd::prelude::*;
use crate::account::AccountId;
use crate::error::FundError;
use crate::modes::{Config, Mode};
use crate::reclaim::lemma_rounded_share_bounded;
use crate::run::{Action, Event, Payer, Phase, Run};
use crate::transfer::TransferIntent;

verus! {

/// A run is well-formed at its start, whatever its treasury.
pub proof fn law_start_is_well_formed(config: Config, mode: Mode, treasury: AccountId)
    requires
        config.fraction.valid(),
    ensures
        Run::begun(config, mode, treasury).wf(),
        Run::started(config, mode) matches Ok(run) ==> run.wf(),
{
}

/// An event leaves a well-formed run well-formed, and leaves its
/// configuration, its mode and its treasury as they were.
pub proof fn law_step_keeps_well_formed(run: Run, event: Event)
    requires
        run.wf(),
    ensures
        run.after(event).wf(),
        run.after(event).config == run.config,
        run.after(event).mode == run.mode,
        run.after(event).treasury == run.treasury,
{
    match run.phase {
        Phase::AwaitChildBalance { .. } => {
            if let Event::Balance { amount } = event {
                lemma_rounded_share_bounded(
                    amount as nat,
                    run.config.fraction.spec_numerator() as nat,
                    run.config.fraction.spec_denominator() as nat,
                );
            }
        },
        _ => {},
    }
}

/// Any number of events leave a well-formed run well-formed.
pub proof fn law_run_stays_well_formed(run: Run, events: Seq<Event>)
    requires
        run.wf(),
    ensures
        run.after_all(events).wf(),
        run.after_all(events).config == run.config,
        run.after_all(events).mode == run.mode,
        run.after_all(events).treasury == run.treasury,
    decreases events.len(),
{
    if events.len() > 0 {
        law_run_stays_well_formed(run, events.drop_last());
        law_step_keeps_well_formed(run.after_all(events.drop_last()), events.last());
    }
}

/// Where the source holds less than the transfer asks for, the run fails
/// with `InsufficientFunds`, which names both amounts, and the transfer is
/// not submitted.
pub proof fn law_transfer_is_guarded(run: Run, index: usize, intent: TransferIntent, balance: u64)
    requires
        run.phase == (Phase::AwaitSourceBalance { index, intent }),
        balance < intent.amount,
    ensures
        run.after(Event::Balance { amount: balance }).phase == (Phase::Failed {
            error: FundError::InsufficientFunds { requested: intent.amount, available: balance },
        }),
        run.after(Event::Balance { amount: balance }).pending_action() == (Action::Abort {
            error: FundError::InsufficientFunds { requested: intent.amount, available: balance },
        }),
{
}

/// Who pays is whose funds move: in a well-formed run the payer of a
/// pending transfer is the treasury where the transfer comes out of the
/// treasury, and else the child whose derived account is the source.
pub proof fn law_payer_is_the_source(run: Run, intent: TransferIntent, payer: Payer)
    requires
        run.wf(),
        run.pending_action() == (Action::Submit { intent, payer }),
    ensures
        match payer {
            Payer::Treasury => intent.from == run.treasury,
            Payer::Child { index } => run.current_index() == Some(index) && run.is_child(
                index,
                intent.from,
            ),
        },
{
}

/// A transfer becomes pending for submission in one way only: the run
/// meant this transfer, and the ledger has just reported a balance of the
/// source that covers it.
pub proof fn law_submission_needs_cover(
    run: Run,
    event: Event,
    index: usize,
    intent: TransferIntent,
)
    requires
        run.after(event).phase == (Phase::AwaitReceipt { index, intent }),
        run.phase != (Phase::AwaitReceipt { index, intent }),
    ensures
        run.phase == (Phase::AwaitSourceBalance { index, intent }),
        event matches Event::Balance { amount } && amount >= intent.amount,
{
}

/// A run that has ended stays as it is, whatever comes.
pub proof fn law_end_is_final(run: Run, events: Seq<Event>)
    requires
        run.ended(),
    ensures
        run.after_all(events) == run,
    decreases events.len(),
{
    if events.len() > 0 {
        law_end_is_final(run, events.drop_last());
    }
}

/// After a refusal for insufficient funds nothing is submitted any more:
/// the children that remain are not attempted.
pub proof fn law_refusal_ends_the_run(
    run: Run,
    index: usize,
    intent: TransferIntent,
    balance: u64,
    events: Seq<Event>,
)
    requires
        run.phase == (Phase::AwaitSourceBalance { index, intent }),
        balance < intent.amount,
    ensures
        run.after(Event::Balance { amount: balance }).after_all(events).pending_action() == (
        Action::Abort {
            error: FundError::InsufficientFunds { requested: intent.amount, available: balance },
        }),
{
    law_end_is_final(run.after(Event::Balance { amount: balance }), events);
}

/// Continual funding leaves alone a child that holds the threshold or
/// more, and goes on to the next.
pub proof fn law_threshold_is_enough(run: Run, index: usize, child: AccountId, balance: u64)
    requires
        run.mode == Mode::ContinualFunding,
        run.phase == (Phase::AwaitChildBalance { index, child }),
        balance >= run.config.threshold,
    ensures
        run.advanced(Event::Balance { amount: balance }) == run.onward(index as nat + 1),
        !run.after(Event::Balance { amount: balance }).transferring(),
{
}

/// Below the threshold, continual funding means to send the threshold
/// amount from the treasury to the child.
pub proof fn law_below_threshold_is_funded(run: Run, index: usize, child: AccountId, balance: u64)
    requires
        run.mode == Mode::ContinualFunding,
        run.phase == (Phase::AwaitChildBalance { index, child }),
        balance < run.config.threshold,
    ensures
        run.after(Event::Balance { amount: balance }).phase == (Phase::AwaitSourceBalance {
            index,
            intent: TransferIntent {
                from: run.treasury,
                to: child,
                amount: run.config.threshold,
                asset: run.config.asset,
            },
        }),
{
}

/// While every balance that the ledger reports is the threshold or more,
/// continual funding asks for no transfer, pass after pass.
pub proof fn law_funded_children_need_nothing(run: Run, events: Seq<Event>)
    requires
        run.mode == Mode::ContinualFunding,
        !run.transferring(),
        forall|i: int|
            0 <= i < events.len() ==> (#[trigger] events[i] matches Event::Balance { amount }
                ==> amount >= run.config.threshold),
    ensures
        !run.after_all(events).transferring(),
        !(run.after_all(events).pending_action() is Submit),
        run.submitted(events) == Seq::<TransferIntent>::empty(),
        run.after_all(events).mode == run.mode,
        run.after_all(events).config == run.config,
    decreases events.len(),
{
    if events.len() > 0 {
        let before = events.drop_last();
        assert forall|i: int| 0 <= i < before.len() implies (#[trigger] before[i] matches
        Event::Balance { amount } ==> amount >= run.config.threshold) by {
            assert(before[i] == events[i]);
        }
        law_funded_children_need_nothing(run, before);
        assert(events.last() == events[events.len() - 1]);
    }
}

/// Where the share of a child's balance rounds to nothing, a reclaim asks
/// for no transfer and goes on to the next child.
pub proof fn law_dust_is_skipped(run: Run, index: usize, child: AccountId, balance: u64)
    requires
        run.mode == Mode::Reclaim,
        run.phase == (Phase::AwaitChildBalance { index, child }),
        run.config.fraction.share(balance as nat) == 0,
    ensures
        run.advanced(Event::Balance { amount: balance }) == run.onward(index as nat + 1),
        !run.after(Event::Balance { amount: balance }).transferring(),
{
}

/// What a reclaim sweeps from a child is more than nothing and at most
/// what the child holds, and it goes to the treasury.
pub proof fn law_sweep_is_within_balance(run: Run, index: usize, child: AccountId, balance: u64)
    requires
        run.config.fraction.valid(),
        run.mode == Mode::Reclaim,
        run.phase == (Phase::AwaitChildBalance { index, child }),
        run.config.fraction.share(balance as nat) > 0,
    ensures
        run.after(Event::Balance { amount: balance }).phase == (Phase::AwaitSourceBalance {
            index,
            intent: TransferIntent {
                from: child,
                to: run.treasury,
                amount: run.config.fraction.share(balance as nat) as u64,
                asset: run.config.asset,
            },
        }),
        0 < run.config.fraction.share(balance as nat) <= balance,
{
    lemma_rounded_share_bounded(
        balance as nat,
        run.config.fraction.spec_numerator() as nat,
        run.config.fraction.spec_denominator() as nat,
    );
}

/// The children are taken in ascending order, none skipped: an event
/// leaves the run with its child or moves it to the next one, and a pass
/// begins with the first.
pub proof fn law_children_in_order(run: Run, event: Event)
    ensures
        match (run.current_index(), run.after(event).current_index()) {
            (Some(i), Some(j)) => j == i || (j == i + 1 && j < run.config.wallets),
            (None, Some(j)) => j == 0 && j < run.config.wallets && run.phase is Sleeping
                && event is Woke,
            _ => true,
        },
{
}

/// Initial distribution funds every child it takes up, whatever the child
/// holds: it asks for the treasury's balance at once.
pub proof fn law_initial_distribution_funds_each(run: Run, index: usize, child: AccountId)
    requires
        run.mode == Mode::InitialDistribution,
    ensures
        run.entered(index, Ok(child)) == (Phase::AwaitSourceBalance {
            index,
            intent: TransferIntent {
                from: run.treasury,
                to: child,
                amount: run.config.threshold,
                asset: run.config.asset,
            },
        }),
{
}

/// An error that the ledger reports ends the run with that error.
pub proof fn law_ledger_errors_end_the_run(run: Run)
    requires
        !run.ended(),
        !(run.phase is Sleeping),
    ensures
        run.after(Event::NetworkFailed).phase == (Phase::Failed { error: FundError::NetworkError }),
        run.phase is AwaitReceipt ==> run.after(Event::Rejected).phase == (Phase::Failed {
            error: FundError::TransferRejected,
        }),
        !(run.phase is AwaitReceipt) ==> run.after(Event::AssetUnknown).phase == (Phase::Failed {
            error: FundError::UnknownAsset,
        }),
{
}

} // verus!
