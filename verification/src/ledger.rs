//! The invoice ledger: the durable record of every issued invoice and the
//! single source of truth for whether it has settled. A row is created
//! `Pending` when the invoice is issued and moves to `Settled` exactly
//! once; settling an already-settled row changes nothing.

use vstd::prelude::*;

verus! {

/// Lifecycle status of an invoice row.
#[derive(PartialEq, Eq, Structural, Clone, Copy, Debug)]
pub enum InvoiceStatus {
    Pending,
    Settled,
}

/// One ledger row: the invoice service's operation id, the requested
/// amount, the encoded invoice handed to the payer, and the status.
#[derive(Debug)]
pub struct InvoiceRow {
    pub op_id: String,
    pub amount_msats: u64,
    pub bolt11: String,
    pub status: InvoiceStatus,
}

/// The mathematical content of a ledger row.
pub struct InvoiceRowV {
    pub op_id: Seq<char>,
    pub amount_msats: u64,
    pub bolt11: Seq<char>,
    pub status: InvoiceStatus,
}

impl View for InvoiceRow {
    type V = InvoiceRowV;

    open spec fn view(&self) -> InvoiceRowV {
        InvoiceRowV {
            op_id: self.op_id@,
            amount_msats: self.amount_msats,
            bolt11: self.bolt11@,
            status: self.status,
        }
    }
}

/// The same row, settled.
pub open spec fn settled(r: InvoiceRowV) -> InvoiceRowV {
    InvoiceRowV { status: InvoiceStatus::Settled, ..r }
}

/// Why a ledger operation fails.
#[derive(PartialEq, Eq, Structural, Clone, Copy, Debug)]
pub enum LedgerError {
    /// No row exists under the given id.
    UnknownInvoice,
}

/// The invoice ledger; its view is the sequence of rows, indexed by the
/// id that `insert` hands out.
pub struct InvoiceLedger {
    rows: Vec<InvoiceRow>,
}

impl View for InvoiceLedger {
    type V = Seq<InvoiceRowV>;

    closed spec fn view(&self) -> Seq<InvoiceRowV> {
        Seq::new(self.rows@.len(), |i: int| self.rows@[i]@)
    }
}

impl InvoiceLedger {
    /// An empty ledger.
    pub fn new() -> (r: Self)
        ensures
            r@ == Seq::<InvoiceRowV>::empty(),
    {
        let l = InvoiceLedger { rows: Vec::new() };
        proof {
            assert(l@ =~= Seq::<InvoiceRowV>::empty());
        }
        l
    }

    /// How many rows the ledger holds.
    pub fn len(&self) -> (n: usize)
        ensures
            n == self@.len(),
    {
        self.rows.len()
    }

    /// The row under an id.
    pub fn get(&self, id: usize) -> (r: Option<&InvoiceRow>)
        ensures
            id < self@.len() ==> (r matches Some(row) && row@ == self@[id as int]),
            id >= self@.len() ==> r is None,
    {
        if id < self.rows.len() {
            Some(&self.rows[id])
        } else {
            None
        }
    }

    /// Persists exactly one new `Pending` row for a just-issued invoice
    /// and hands out its id.
    pub fn insert(&mut self, op_id: String, amount_msats: u64, bolt11: String) -> (id: usize)
        ensures
            final(self)@ == old(self)@.push(
                InvoiceRowV {
                    op_id: op_id@,
                    amount_msats,
                    bolt11: bolt11@,
                    status: InvoiceStatus::Pending,
                },
            ),
            id == old(self)@.len(),
    {
        let id = self.rows.len();
        self.rows.push(InvoiceRow { op_id, amount_msats, bolt11, status: InvoiceStatus::Pending });
        proof {
            assert(self@ =~= old(self)@.push(self.rows@[id as int]@));
        }
        id
    }

    /// Marks the row under `id` settled and returns the updated record;
    /// every other row, and the row's own identity fields, are untouched.
    /// Settling an already-settled row is a no-op with the same result.
    pub fn settle(&mut self, id: usize) -> (r: Result<InvoiceRow, LedgerError>)
        ensures
            id < old(self)@.len() ==> final(self)@ == old(self)@.update(
                id as int,
                settled(old(self)@[id as int]),
            ) && (r matches Ok(row) && row@ == settled(old(self)@[id as int])),
            id >= old(self)@.len() ==> final(self)@ == old(self)@ && (r matches Err(
                LedgerError::UnknownInvoice,
            )),
    {
        if id >= self.rows.len() {
            return Err(LedgerError::UnknownInvoice);
        }
        let updated = InvoiceRow {
            op_id: self.rows[id].op_id.clone(),
            amount_msats: self.rows[id].amount_msats,
            bolt11: self.rows[id].bolt11.clone(),
            status: InvoiceStatus::Settled,
        };
        let returned = InvoiceRow {
            op_id: self.rows[id].op_id.clone(),
            amount_msats: self.rows[id].amount_msats,
            bolt11: self.rows[id].bolt11.clone(),
            status: InvoiceStatus::Settled,
        };
        self.rows.set(id, updated);
        proof {
            assert(self@ =~= old(self)@.update(id as int, settled(old(self)@[id as int])));
        }
        Ok(returned)
    }
}

/// One minted-notes record: minting commits value, so its success is
/// recorded durably before any send is attempted, and the record is marked
/// delivered only once a send succeeds. A retry path resends the stored
/// notes of an undelivered record without minting again.
#[derive(Debug)]
pub struct MintRecord {
    pub invoice_id: usize,
    pub mint_op_id: String,
    pub notes: String,
    pub recipient_pubkey: String,
    pub delivered: bool,
}

/// The mathematical content of a mint record.
pub struct MintRecordV {
    pub invoice_id: usize,
    pub mint_op_id: Seq<char>,
    pub notes: Seq<char>,
    pub recipient_pubkey: Seq<char>,
    pub delivered: bool,
}

impl View for MintRecord {
    type V = MintRecordV;

    open spec fn view(&self) -> MintRecordV {
        MintRecordV {
            invoice_id: self.invoice_id,
            mint_op_id: self.mint_op_id@,
            notes: self.notes@,
            recipient_pubkey: self.recipient_pubkey@,
            delivered: self.delivered,
        }
    }
}

/// The same record, marked delivered.
pub open spec fn delivered(r: MintRecordV) -> MintRecordV {
    MintRecordV { delivered: true, ..r }
}

/// The durable checkpoint between minting and delivery; its view is the
/// sequence of mint records, indexed by the id that `record_mint` hands
/// out.
pub struct MintLedger {
    records: Vec<MintRecord>,
}

impl View for MintLedger {
    type V = Seq<MintRecordV>;

    closed spec fn view(&self) -> Seq<MintRecordV> {
        Seq::new(self.records@.len(), |i: int| self.records@[i]@)
    }
}

impl MintLedger {
    /// An empty mint ledger.
    pub fn new() -> (r: Self)
        ensures
            r@ == Seq::<MintRecordV>::empty(),
    {
        let l = MintLedger { records: Vec::new() };
        proof {
            assert(l@ =~= Seq::<MintRecordV>::empty());
        }
        l
    }

    /// How many records the ledger holds.
    pub fn len(&self) -> (n: usize)
        ensures
            n == self@.len(),
    {
        self.records.len()
    }

    /// The record under an id.
    pub fn get(&self, id: usize) -> (r: Option<&MintRecord>)
        ensures
            id < self@.len() ==> (r matches Some(record) && record@ == self@[id as int]),
            id >= self@.len() ==> r is None,
    {
        if id < self.records.len() {
            Some(&self.records[id])
        } else {
            None
        }
    }

    /// Records one successful mint, not yet delivered, and hands out its
    /// id.
    pub fn record_mint(
        &mut self,
        invoice_id: usize,
        mint_op_id: String,
        notes: String,
        recipient_pubkey: String,
    ) -> (id: usize)
        ensures
            final(self)@ == old(self)@.push(
                MintRecordV {
                    invoice_id,
                    mint_op_id: mint_op_id@,
                    notes: notes@,
                    recipient_pubkey: recipient_pubkey@,
                    delivered: false,
                },
            ),
            id == old(self)@.len(),
    {
        let id = self.records.len();
        self.records.push(
            MintRecord { invoice_id, mint_op_id, notes, recipient_pubkey, delivered: false },
        );
        proof {
            assert(self@ =~= old(self)@.push(self.records@[id as int]@));
        }
        id
    }

    /// Marks the record under `id` delivered; every other record, and the
    /// record's own mint fields, are untouched.
    pub fn mark_delivered(&mut self, id: usize) -> (r: Result<(), LedgerError>)
        ensures
            id < old(self)@.len() ==> final(self)@ == old(self)@.update(
                id as int,
                delivered(old(self)@[id as int]),
            ) && r is Ok,
            id >= old(self)@.len() ==> final(self)@ == old(self)@ && (r matches Err(
                LedgerError::UnknownInvoice,
            )),
    {
        if id >= self.records.len() {
            return Err(LedgerError::UnknownInvoice);
        }
        let updated = MintRecord {
            invoice_id: self.records[id].invoice_id,
            mint_op_id: self.records[id].mint_op_id.clone(),
            notes: self.records[id].notes.clone(),
            recipient_pubkey: self.records[id].recipient_pubkey.clone(),
            delivered: true,
        };
        self.records.set(id, updated);
        proof {
            assert(self@ =~= old(self)@.update(id as int, delivered(old(self)@[id as int])));
        }
        Ok(())
    }

    /// The ids of the records whose notes are minted but not yet
    /// delivered, in increasing order: what a retry path must resend,
    /// without minting again.
    pub fn undelivered_ids(&self) -> (r: Vec<usize>)
        ensures
            forall|j: int|
                0 <= j < r@.len() ==> r@[j] < self@.len() && !self@[r@[j] as int].delivered,
            forall|i: int|
                0 <= i < self@.len() && !self@[i].delivered ==> r@.contains(i as usize),
            forall|j1: int, j2: int| 0 <= j1 < j2 < r@.len() ==> r@[j1] < r@[j2],
    {
        let n = self.records.len();
        let mut r: Vec<usize> = Vec::new();
        let mut i: usize = 0;
        while i < n
            invariant
                n == self@.len(),
                i <= n,
                forall|j: int|
                    0 <= j < r@.len() ==> r@[j] < i && !self@[r@[j] as int].delivered,
                forall|k: int| 0 <= k < i && !self@[k].delivered ==> r@.contains(k as usize),
                forall|j1: int, j2: int| 0 <= j1 < j2 < r@.len() ==> r@[j1] < r@[j2],
            decreases n - i,
        {
            let ghost prev = r@;
            if !self.records[i].delivered {
                r.push(i);
            }
            proof {
                assert forall|k: int| 0 <= k < i + 1 && !self@[k].delivered implies r@.contains(
                    k as usize,
                ) by {
                    if k < i {
                        let j = choose|j: int| 0 <= j < prev.len() && prev[j] == k as usize;
                        assert(r@[j] == k as usize);
                    } else {
                        assert(r@[r@.len() - 1] == i as usize);
                    }
                }
            }
            i = i + 1;
        }
        r
    }
}

/// Settling is idempotent: settling a row that a first settle already
/// settled leaves the ledger exactly as the first settle left it.
pub proof fn lemma_settle_idempotent(rows: Seq<InvoiceRowV>, id: int)
    requires
        0 <= id < rows.len(),
    ensures
        rows.update(id, settled(rows[id])).update(
            id,
            settled(rows.update(id, settled(rows[id]))[id]),
        ) == rows.update(id, settled(rows[id])),
{
    let once = rows.update(id, settled(rows[id]));
    assert(settled(once[id]) == once[id]);
    assert(once.update(id, settled(once[id])) =~= once);
}

} // verus!
