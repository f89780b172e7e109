use lnurl_settle::ledger::{LedgerError, MintLedger};

#[test]
fn a_recorded_mint_is_undelivered_until_marked() {
    let mut mints = MintLedger::new();
    let id = mints.record_mint(
        0,
        String::from("mintop1"),
        String::from("notesabc"),
        String::from("aa"),
    );
    assert_eq!(id, 0);
    assert_eq!(mints.len(), 1);
    let record = mints.get(id).expect("the record was just created");
    assert_eq!(record.invoice_id, 0);
    assert_eq!(record.mint_op_id, "mintop1");
    assert_eq!(record.notes, "notesabc");
    assert_eq!(record.recipient_pubkey, "aa");
    assert!(!record.delivered);
    assert_eq!(mints.undelivered_ids(), vec![0]);

    mints.mark_delivered(id).expect("the record exists");
    assert!(mints.get(id).unwrap().delivered);
    assert_eq!(mints.get(id).unwrap().notes, "notesabc");
    assert!(mints.undelivered_ids().is_empty());
}

#[test]
fn only_undelivered_records_are_listed_for_retry() {
    let mut mints = MintLedger::new();
    let first = mints.record_mint(0, String::from("m0"), String::from("n0"), String::from("k0"));
    let second = mints.record_mint(1, String::from("m1"), String::from("n1"), String::from("k1"));
    let third = mints.record_mint(2, String::from("m2"), String::from("n2"), String::from("k2"));
    mints.mark_delivered(second).expect("the record exists");
    assert_eq!(mints.undelivered_ids(), vec![first, third]);
}

#[test]
fn marking_an_unknown_record_is_refused() {
    let mut mints = MintLedger::new();
    assert_eq!(mints.mark_delivered(3).unwrap_err(), LedgerError::UnknownInvoice);
    assert_eq!(mints.len(), 0);
}
