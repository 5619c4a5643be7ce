//! Reporting client core for an account-based ledger: fetch planning,
//! normalisation of raw transaction records and rendering of flat rows.

pub mod account;
pub mod fetch;
pub mod laws;
pub mod row;
pub mod text;
pub mod time;
pub mod transaction;

pub use account::{account_to_str, subaccount_to_str, Account};
pub use fetch::{
    archive_request, collect_emissions, emit, emit_slice, get_length, length_request, ArchiveDelegation, Emission,
    FetchError, GetTransactionsRequest, GetTransactionsResponse, TransactionRange,
};
pub use row::{get_fee, get_from, get_to, memo_to_str, tx_to_tsv, HEADER};
pub use time::timestamp_to_utc_rtc3339;
pub use transaction::{normalize, Burn, Mint, NormalizeError, RawTransaction, Transaction, Transfer};
