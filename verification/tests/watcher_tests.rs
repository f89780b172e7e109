use lnurl_settle::ledger::{InvoiceLedger, InvoiceStatus, LedgerError};
use lnurl_settle::watcher::{run_watcher, watch_step, SettlementEvent, WatchAction, WatchOutcome};

fn ledger_with_one_row() -> InvoiceLedger {
    let mut ledger = InvoiceLedger::new();
    let id = ledger.insert(String::from("op1"), 5000, String::from("lnbc1example"));
    assert_eq!(id, 0);
    ledger
}

#[test]
fn watch_step_decides_each_event() {
    assert_eq!(watch_step(&SettlementEvent::Claimed), WatchAction::SettleThenDeliver);
    assert_eq!(
        watch_step(&SettlementEvent::Canceled { reason: String::from("timeout") }),
        WatchAction::Stop
    );
    assert_eq!(watch_step(&SettlementEvent::Other), WatchAction::Continue);
}

#[test]
fn claimed_settles_the_row_and_hands_out_the_amount() {
    let mut ledger = ledger_with_one_row();
    let events = vec![SettlementEvent::Other, SettlementEvent::Claimed];
    match run_watcher(&mut ledger, 0, &events) {
        WatchOutcome::Delivered { amount_msats } => assert_eq!(amount_msats, 5000),
        _ => panic!("a claimed payment must be delivered"),
    }
    assert_eq!(ledger.get(0).unwrap().status, InvoiceStatus::Settled);
    assert_eq!(ledger.get(0).unwrap().amount_msats, 5000);
    assert_eq!(ledger.get(0).unwrap().op_id, "op1");
}

#[test]
fn repeated_claimed_settles_and_delivers_exactly_once() {
    let mut ledger = ledger_with_one_row();
    let events = vec![SettlementEvent::Claimed, SettlementEvent::Claimed];
    match run_watcher(&mut ledger, 0, &events) {
        WatchOutcome::Delivered { amount_msats } => assert_eq!(amount_msats, 5000),
        _ => panic!("a claimed payment must be delivered"),
    }
    assert_eq!(ledger.get(0).unwrap().status, InvoiceStatus::Settled);
    // Settling again, as a defensive retry would, changes nothing.
    let settled_again = ledger.settle(0).expect("settle is idempotent");
    assert_eq!(settled_again.status, InvoiceStatus::Settled);
    assert_eq!(settled_again.amount_msats, 5000);
    assert_eq!(ledger.get(0).unwrap().status, InvoiceStatus::Settled);
    assert_eq!(ledger.len(), 1);
}

#[test]
fn canceled_leaves_the_row_pending_and_delivers_nothing() {
    let mut ledger = ledger_with_one_row();
    let events = vec![SettlementEvent::Canceled { reason: String::from("timeout") }];
    match run_watcher(&mut ledger, 0, &events) {
        WatchOutcome::Abandoned { reason } => assert_eq!(reason, "timeout"),
        _ => panic!("a canceled payment must be abandoned"),
    }
    assert_eq!(ledger.get(0).unwrap().status, InvoiceStatus::Pending);
}

#[test]
fn canceled_wins_over_a_later_claimed() {
    let mut ledger = ledger_with_one_row();
    let events = vec![
        SettlementEvent::Canceled { reason: String::from("timeout") },
        SettlementEvent::Claimed,
    ];
    match run_watcher(&mut ledger, 0, &events) {
        WatchOutcome::Abandoned { reason } => assert_eq!(reason, "timeout"),
        _ => panic!("the first terminal event decides the watch"),
    }
    assert_eq!(ledger.get(0).unwrap().status, InvoiceStatus::Pending);
}

#[test]
fn a_stream_without_a_terminal_event_takes_no_action() {
    let mut ledger = ledger_with_one_row();
    let events = vec![SettlementEvent::Other, SettlementEvent::Other];
    assert!(matches!(run_watcher(&mut ledger, 0, &events), WatchOutcome::NoTerminal));
    assert_eq!(ledger.get(0).unwrap().status, InvoiceStatus::Pending);
}

#[test]
fn settle_of_an_unknown_id_is_refused() {
    let mut ledger = ledger_with_one_row();
    assert_eq!(ledger.settle(7).unwrap_err(), LedgerError::UnknownInvoice);
    assert_eq!(ledger.get(0).unwrap().status, InvoiceStatus::Pending);
}
