//! Verified core of an LNURL-pay settlement pipeline: callback validation
//! and response construction, an invoice ledger with a pending/settled
//! lifecycle, a settlement watcher state machine, and construction of the
//! delivery payload that carries minted notes to the recipient.

pub mod callback;
pub mod delivery;
pub mod directory;
pub mod ledger;
pub mod text;
pub mod watcher;
