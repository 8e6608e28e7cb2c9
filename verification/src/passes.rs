//! Whole passes: what a run does with all its children when the ledger
//! answers every question and accepts every transfer.

use vstd::prelude::*;
use crate::account::AccountId;
use crate::deriver::derived;
use crate::modes::{Config, Mode};
use crate::run::{Event, Phase, Run};
use crate::transfer::TransferIntent;

verus! {

/// What the ledger reports while the run is busy with one child.
pub struct Reading {
    /// What the child holds. Initial distribution does not ask for it.
    pub held: u64,
    /// What the source of the transfer holds, where the run means to
    /// transfer.
    pub source: u64,
}

impl Run {
    /// The account of the child `index`, where its derivation succeeds.
    pub open spec fn child(&self, index: nat) -> AccountId {
        derived(self.config.phrase@, index)->Ok_0
    }

    /// The transfer that the run wants for the child `index`, if any.
    pub open spec fn wanted(&self, index: nat, reading: Reading) -> Option<TransferIntent> {
        self.plan(self.child(index), reading.held)
    }

    /// The source holds what the transfer for the child `index` asks for.
    pub open spec fn covered(&self, index: nat, reading: Reading) -> bool {
        self.wanted(index, reading) matches Some(intent) ==> reading.source >= intent.amount
    }

    /// Nothing stands in the way of the child `index`: its account can be
    /// derived, and the source covers the transfer that is wanted for it.
    pub open spec fn unhindered(&self, index: nat, reading: Reading) -> bool {
        derived(self.config.phrase@, index) is Ok && self.covered(index, reading)
    }

    /// The events of one child: its balance, unless the mode is initial
    /// distribution; then, where a transfer is wanted, the balance of the
    /// source and the ledger's acceptance.
    pub open spec fn child_events(&self, index: nat, reading: Reading) -> Seq<Event> {
        let asked = if self.mode == Mode::InitialDistribution {
            Seq::<Event>::empty()
        } else {
            seq![Event::Balance { amount: reading.held }]
        };
        match self.wanted(index, reading) {
            Some(intent) => asked.push(Event::Balance { amount: reading.source }).push(
                Event::Submitted,
            ),
            None => asked,
        }
    }

    /// The events of the children from `first` on, one reading for each.
    pub open spec fn pass_events(&self, first: nat, readings: Seq<Reading>) -> Seq<Event>
        decreases readings.len(),
    {
        if readings.len() == 0 {
            Seq::empty()
        } else {
            self.pass_events(first, readings.drop_last()) + self.child_events(
                (first + readings.len() - 1) as nat,
                readings.last(),
            )
        }
    }

    /// The transfers that are wanted for the children from `first` on, in
    /// the order of the children.
    pub open spec fn pass_transfers(&self, first: nat, readings: Seq<Reading>) -> Seq<
        TransferIntent,
    >
        decreases readings.len(),
    {
        if readings.len() == 0 {
            Seq::empty()
        } else {
            let earlier = self.pass_transfers(first, readings.drop_last());
            match self.wanted((first + readings.len() - 1) as nat, readings.last()) {
                Some(intent) => earlier.push(intent),
                None => earlier,
            }
        }
    }
}

/// The run after one more event.
pub proof fn lemma_after_push(run: Run, events: Seq<Event>, event: Event)
    ensures
        run.after_all(events.push(event)) == run.after_all(events).after(event),
        run.submitted(events.push(event)) == (match (run.after_all(events).phase, event) {
            (Phase::AwaitReceipt { index, intent }, Event::Submitted) => run.submitted(
                events,
            ).push(intent),
            _ => run.submitted(events),
        }),
{
    assert(events.push(event).drop_last() =~= events);
    assert(events.push(event).last() == event);
}

/// Events leave the configuration, the mode and the treasury of a run as
/// they were.
pub proof fn lemma_events_keep_the_setup(run: Run, events: Seq<Event>)
    ensures
        run.after_all(events).config == run.config,
        run.after_all(events).mode == run.mode,
        run.after_all(events).treasury == run.treasury,
    decreases events.len(),
{
    if events.len() > 0 {
        lemma_events_keep_the_setup(run, events.drop_last());
    }
}

/// Taking two runs of events one after the other is taking them as one.
pub proof fn lemma_after_both(run: Run, first: Seq<Event>, second: Seq<Event>)
    ensures
        run.after_all(first + second) == run.after_all(first).after_all(second),
        run.submitted(first + second) == run.submitted(first) + run.after_all(first).submitted(
            second,
        ),
    decreases second.len(),
{
    if second.len() == 0 {
        assert(first + second =~= first);
        assert(run.submitted(first) + Seq::<TransferIntent>::empty() =~= run.submitted(first));
    } else {
        let both = first + second;
        assert(both.drop_last() =~= first + second.drop_last());
        assert(both.last() == second.last());
        lemma_after_both(run, first, second.drop_last());
        let mid = run.after_all(first);
        match (mid.after_all(second.drop_last()).phase, second.last()) {
            (Phase::AwaitReceipt { index, intent }, Event::Submitted) => {
                assert(run.submitted(both) =~= run.submitted(first) + mid.submitted(second));
            },
            _ => {},
        }
    }
}

/// One child, without a hitch: a run that has taken up the child `index`
/// and gets the events of that child goes on to what follows the child,
/// and the ledger has accepted the transfer that was wanted for the child,
/// and no other.
pub proof fn law_child_is_served(run: Run, index: nat, reading: Reading)
    requires
        index < run.config.wallets,
        run.phase == run.settled(run.onward(index)),
        run.unhindered(index, reading),
    ensures
        run.after_all(run.child_events(index, reading)).phase == run.settled(
            run.onward(index + 1),
        ),
        run.submitted(run.child_events(index, reading)) == (match run.wanted(index, reading) {
            Some(intent) => seq![intent],
            None => Seq::<TransferIntent>::empty(),
        }),
{
    let none = Seq::<Event>::empty();
    let held = Event::Balance { amount: reading.held };
    let source = Event::Balance { amount: reading.source };
    assert(run.after_all(none) == run);
    assert(run.submitted(none) =~= Seq::<TransferIntent>::empty());
    if run.mode == Mode::InitialDistribution {
        let intent = run.wanted(index, reading)->Some_0;
        lemma_after_push(run, none, source);
        lemma_after_push(run, none.push(source), Event::Submitted);
        assert(run.submitted(run.child_events(index, reading)) =~= seq![intent]);
    } else {
        lemma_after_push(run, none, held);
        assert(none.push(held) =~= seq![held]);
        match run.wanted(index, reading) {
            Some(intent) => {
                lemma_after_push(run, seq![held], source);
                lemma_after_push(run, seq![held].push(source), Event::Submitted);
                assert(run.submitted(run.child_events(index, reading)) =~= seq![intent]);
            },
            None => {},
        }
    }
}

/// Children in order, without a hitch: a run that has taken up the child
/// `first` and gets the events of as many children as there are readings
/// goes on to what follows the last of them; and the transfers that the
/// ledger has accepted are those wanted for these children, in the order
/// of the children.
pub proof fn law_children_are_served_in_order(run: Run, first: nat, readings: Seq<Reading>)
    requires
        first + readings.len() <= run.config.wallets,
        run.phase == run.settled(run.onward(first)),
        forall|k: int|
            0 <= k < readings.len() ==> run.unhindered((first + k) as nat, #[trigger] readings[k]),
    ensures
        run.after_all(run.pass_events(first, readings)).phase == run.settled(
            run.onward(first + readings.len()),
        ),
        run.submitted(run.pass_events(first, readings)) == run.pass_transfers(first, readings),
    decreases readings.len(),
{
    if readings.len() > 0 {
        let earlier = readings.drop_last();
        let last = (first + readings.len() - 1) as nat;
        assert forall|k: int| 0 <= k < earlier.len() implies run.unhindered(
            (first + k) as nat,
            #[trigger] earlier[k],
        ) by {
            assert(earlier[k] == readings[k]);
        }
        law_children_are_served_in_order(run, first, earlier);
        let before = run.pass_events(first, earlier);
        let mid = run.after_all(before);
        lemma_events_keep_the_setup(run, before);
        assert(readings.last() == readings[readings.len() - 1]);
        assert(run.unhindered(last, readings.last()));
        assert(mid.child_events(last, readings.last()) == run.child_events(last, readings.last()));
        law_child_is_served(mid, last, readings.last());
        lemma_after_both(run, before, run.child_events(last, readings.last()));
        match run.wanted(last, readings.last()) {
            Some(intent) => {
                assert(run.pass_transfers(first, earlier) + seq![intent]
                    =~= run.pass_transfers(first, earlier).push(intent));
            },
            None => {
                assert(run.pass_transfers(first, earlier) + Seq::<TransferIntent>::empty()
                    =~= run.pass_transfers(first, earlier));
            },
        }
    }
}

/// A whole pass, without a hitch: from its start, a run that gets the
/// events of all its children ends the pass, finished or, in continual
/// funding, asleep; and the ledger has accepted the transfers wanted for
/// the children, in the order of the children, and no other.
pub proof fn law_pass_ends_well(
    config: Config,
    mode: Mode,
    treasury: AccountId,
    readings: Seq<Reading>,
)
    requires
        readings.len() == config.wallets,
        forall|k: int|
            0 <= k < readings.len() ==> Run::begun(config, mode, treasury).unhindered(
                k as nat,
                #[trigger] readings[k],
            ),
    ensures
        ({
            let run = Run::begun(config, mode, treasury);
            let events = run.pass_events(0, readings);
            &&& run.after_all(events).phase == run.end_of_pass()
            &&& run.after_all(events).phase == (if mode == Mode::ContinualFunding {
                Phase::Sleeping
            } else {
                Phase::Finished
            })
            &&& run.submitted(events) == run.pass_transfers(0, readings)
        }),
{
    let run = Run::begun(config, mode, treasury);
    assert forall|k: int| 0 <= k < readings.len() implies run.unhindered(
        (0 + k) as nat,
        #[trigger] readings[k],
    ) by {
        assert(run.unhindered(k as nat, readings[k]));
    }
    law_children_are_served_in_order(run, 0, readings);
}

/// Initial distribution, without a hitch: with a treasury that covers each
/// transfer when it is checked, the run finishes after the last child, and
/// the ledger has accepted exactly one transfer of the threshold amount
/// from the treasury to each child, in ascending order of the children.
pub proof fn law_initial_distribution_funds_all(
    config: Config,
    treasury: AccountId,
    readings: Seq<Reading>,
)
    requires
        readings.len() == config.wallets,
        forall|k: int|
            0 <= k < readings.len() ==> #[trigger] derived(config.phrase@, k as nat) is Ok,
        forall|k: int|
            0 <= k < readings.len() ==> (#[trigger] readings[k]).source >= config.threshold,
    ensures
        ({
            let run = Run::begun(config, Mode::InitialDistribution, treasury);
            let events = run.pass_events(0, readings);
            &&& run.after_all(events).phase == Phase::Finished
            &&& run.submitted(events).len() == config.wallets
            &&& forall|k: int|
                0 <= k < config.wallets ==> #[trigger] run.submitted(events)[k]
                    == config.funding(treasury, run.child(k as nat))
        }),
{
    let run = Run::begun(config, Mode::InitialDistribution, treasury);
    assert forall|k: int| 0 <= k < readings.len() implies run.unhindered(
        (0 + k) as nat,
        #[trigger] readings[k],
    ) by {
        assert(derived(config.phrase@, k as nat) is Ok);
    }
    law_children_are_served_in_order(run, 0, readings);
    lemma_funding_transfers(run, readings, readings.len());
}

/// In initial distribution the transfers wanted for the first `count`
/// children are the fundings of these children.
proof fn lemma_funding_transfers(run: Run, readings: Seq<Reading>, count: nat)
    requires
        run.mode == Mode::InitialDistribution,
        count <= readings.len(),
    ensures
        run.pass_transfers(0, readings.take(count as int)).len() == count,
        forall|k: int|
            0 <= k < count ==> #[trigger] run.pass_transfers(0, readings.take(count as int))[k]
                == run.config.funding(run.treasury, run.child(k as nat)),
        count == readings.len() ==> run.pass_transfers(0, readings.take(count as int))
            == run.pass_transfers(0, readings),
    decreases count,
{
    if count > 0 {
        lemma_funding_transfers(run, readings, (count - 1) as nat);
        assert(readings.take(count as int).drop_last() =~= readings.take(count - 1));
    }
    if count == readings.len() {
        assert(readings.take(count as int) =~= readings);
    }
}

} // verus!
