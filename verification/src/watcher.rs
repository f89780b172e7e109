//! The settlement watcher: one per issued invoice, it consumes that
//! invoice's settlement event stream sequentially and stops at the first
//! terminal event. A `Claimed` event settles the ledger row and asks for
//! minting and delivery; a `Canceled` event abandons the invoice, which
//! stays `Pending`; every other event is ignored.

use vstd::prelude::*;

use crate::ledger::{settled, InvoiceLedger};

verus! {

/// One event from the invoice service's status stream for one invoice.
#[derive(Debug)]
pub enum SettlementEvent {
    /// The payment was canceled upstream, with the reported reason.
    Canceled { reason: String },
    /// The payment settled and the balance was claimed.
    Claimed,
    /// Any non-terminal state of the payment.
    Other,
}

/// The mathematical content of a settlement event.
pub enum EventV {
    Canceled { reason: Seq<char> },
    Claimed,
    Other,
}

impl View for SettlementEvent {
    type V = EventV;

    open spec fn view(&self) -> EventV {
        match self {
            SettlementEvent::Canceled { reason } => EventV::Canceled { reason: reason@ },
            SettlementEvent::Claimed => EventV::Claimed,
            SettlementEvent::Other => EventV::Other,
        }
    }
}

/// The views of a sequence of events.
pub open spec fn events_view(events: Seq<SettlementEvent>) -> Seq<EventV> {
    Seq::new(events.len(), |i: int| events[i]@)
}

/// A terminal event ends the watch.
pub open spec fn is_terminal(e: EventV) -> bool {
    e is Canceled || e is Claimed
}

/// The first terminal event of a stream, if any: the only event the
/// watcher acts on.
pub open spec fn first_terminal(evs: Seq<EventV>) -> Option<EventV>
    decreases evs.len(),
{
    if evs.len() == 0 {
        None
    } else if is_terminal(evs[0]) {
        Some(evs[0])
    } else {
        first_terminal(evs.drop_first())
    }
}

/// What the watcher does with one event.
#[derive(PartialEq, Eq, Structural, Clone, Copy, Debug)]
pub enum WatchAction {
    /// Keep consuming the stream.
    Continue,
    /// Stop consuming; take no ledger or delivery action.
    Stop,
    /// Settle the ledger row, then mint and deliver; then stop.
    SettleThenDeliver,
}

/// The watcher's decision for one event: `Claimed` settles and delivers,
/// `Canceled` stops, everything else is ignored.
pub fn watch_step(event: &SettlementEvent) -> (a: WatchAction)
    ensures
        a == WatchAction::SettleThenDeliver <==> event@ is Claimed,
        a == WatchAction::Stop <==> event@ is Canceled,
        a == WatchAction::Continue <==> event@ is Other,
{
    match event {
        SettlementEvent::Claimed => WatchAction::SettleThenDeliver,
        SettlementEvent::Canceled { reason: _ } => WatchAction::Stop,
        SettlementEvent::Other => WatchAction::Continue,
    }
}

/// How a finished watch ended.
#[derive(Debug)]
pub enum WatchOutcome {
    /// The row was settled; this amount is to be minted and delivered.
    Delivered { amount_msats: u64 },
    /// The payment was canceled; the row stays `Pending` and nothing is
    /// minted or delivered.
    Abandoned { reason: String },
    /// The stream ended without a terminal event; no action was taken.
    NoTerminal,
}

/// Runs the watcher over the events one stream delivered, in order. The
/// ledger changes exactly when the first terminal event is `Claimed`:
/// then the watched row alone is settled, once, and the settled amount is
/// handed out for minting and delivery. A `Canceled` first terminal event
/// or a stream without one leaves the ledger untouched.
pub fn run_watcher(ledger: &mut InvoiceLedger, id: usize, events: &Vec<SettlementEvent>) -> (r:
    WatchOutcome)
    requires
        id < old(ledger)@.len(),
    ensures
        match first_terminal(events_view(events@)) {
            None => final(ledger)@ == old(ledger)@ && r is NoTerminal,
            Some(ev) => match ev {
                EventV::Canceled { reason } => final(ledger)@ == old(ledger)@ && (r matches
                WatchOutcome::Abandoned { reason: given } && given@ == reason),
                EventV::Claimed => final(ledger)@ == old(ledger)@.update(
                    id as int,
                    settled(old(ledger)@[id as int]),
                ) && (r matches WatchOutcome::Delivered { amount_msats } && amount_msats == old(
                    ledger,
                )@[id as int].amount_msats),
                EventV::Other => false,
            },
        },
{
    let n = events.len();
    let mut i: usize = 0;
    proof {
        assert(events_view(events@).skip(0) =~= events_view(events@));
    }
    while i < n
        invariant
            id < ledger@.len(),
            ledger@ == old(ledger)@,
            n == events@.len(),
            i <= n,
            first_terminal(events_view(events@)) == first_terminal(
                events_view(events@).skip(i as int),
            ),
        decreases n - i,
    {
        proof {
            assert(events_view(events@).skip(i as int)[0] == events_view(events@)[i as int]);
        }
        match &events[i] {
            SettlementEvent::Canceled { reason } => {
                return WatchOutcome::Abandoned { reason: reason.clone() };
            },
            SettlementEvent::Claimed => {
                match ledger.settle(id) {
                    Ok(row) => {
                        return WatchOutcome::Delivered { amount_msats: row.amount_msats };
                    },
                    Err(_) => {
                        proof {
                            assert(false);
                        }
                        return WatchOutcome::NoTerminal;
                    },
                }
            },
            SettlementEvent::Other => {},
        }
        proof {
            assert(events_view(events@).skip(i as int).drop_first() =~= events_view(
                events@,
            ).skip(i as int + 1));
        }
        i = i + 1;
    }
    proof {
        assert(events_view(events@).skip(n as int) =~= Seq::<EventV>::empty());
    }
    WatchOutcome::NoTerminal
}

/// Once a stream has delivered a terminal event the watch is decided:
/// whatever the stream would deliver afterwards — a repeated `Claimed`
/// included — the first terminal event, and with it the watcher's ledger
/// effect and delivery decision, are unchanged.
pub proof fn lemma_first_terminal_fixed(evs: Seq<EventV>, extra: Seq<EventV>)
    requires
        first_terminal(evs) is Some,
    ensures
        first_terminal(evs + extra) == first_terminal(evs),
    decreases evs.len(),
{
    if evs.len() == 0 {
    } else if is_terminal(evs[0]) {
        assert((evs + extra)[0] == evs[0]);
    } else {
        lemma_first_terminal_fixed(evs.drop_first(), extra);
        assert((evs + extra).drop_first() =~= evs.drop_first() + extra);
    }
}

} // verus!
