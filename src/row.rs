use vstd::prelude::*;
use crate::account::{account_text, account_to_str};
use crate::text::{decimal, hex_upper, push_decimal, to_decimal, to_hex};
use crate::time::{timestamp_text, timestamp_to_utc_rtc3339};
use crate::transaction::Transaction;

verus! {

/// Column titles, in the order in which `tx_to_tsv` writes the columns.
pub const HEADER: &'static str = "block index|kind|datetime|from|to|amount|fee|memo|created_at_time";

/// The column delimiter.
pub open spec fn bar() -> Seq<char> {
    seq!['|']
}

/// The `from` column: the sending account, empty for a mint.
pub open spec fn from_text(tx: Transaction) -> Seq<char> {
    match tx {
        Transaction::Burn { from, .. } => account_text(from),
        Transaction::Mint { .. } => Seq::empty(),
        Transaction::Transfer { from, .. } => account_text(from),
    }
}

/// The `to` column: the receiving account, empty for a burn.
pub open spec fn to_text(tx: Transaction) -> Seq<char> {
    match tx {
        Transaction::Burn { .. } => Seq::empty(),
        Transaction::Mint { to, .. } => account_text(to),
        Transaction::Transfer { to, .. } => account_text(to),
    }
}

/// The `fee` column: the decimal fee of a transfer that has one, else empty.
pub open spec fn fee_text(tx: Transaction) -> Seq<char> {
    match tx {
        Transaction::Transfer { fee: Some(f), .. } => decimal(f as nat),
        _ => Seq::empty(),
    }
}

/// The `memo` column: the memo bytes in hexadecimal, or empty.
pub open spec fn memo_text(memo: Option<Vec<u8>>) -> Seq<char> {
    match memo {
        Some(m) => hex_upper(m@),
        None => Seq::empty(),
    }
}

/// The `created_at_time` column: the timestamp text, or empty.
pub open spec fn created_text(t: Option<u64>) -> Seq<char> {
    match t {
        Some(t) => timestamp_text(t),
        None => Seq::empty(),
    }
}

/// The row for the transaction at position `idx`: index, kind, datetime, from,
/// to, amount, fee, memo and creation time, joined by `|`.
pub open spec fn row_text(idx: u64, tx: Transaction) -> Seq<char> {
    decimal(idx as nat) + bar() + tx.kind_text() + bar() + timestamp_text(tx.spec_timestamp())
        + bar() + from_text(tx) + bar() + to_text(tx) + bar() + decimal(tx.spec_amount() as nat)
        + bar() + fee_text(tx) + bar() + memo_text(tx.spec_memo()) + bar() + created_text(
        tx.spec_created_at_time(),
    )
}

/// The `from` column of `tx`.
pub fn get_from(tx: &Transaction) -> (r: String)
    requires
        tx.wf(),
    ensures
        r@ == from_text(*tx),
{
    match tx {
        Transaction::Burn { from, .. } => account_to_str(from),
        Transaction::Mint { .. } => String::new(),
        Transaction::Transfer { from, .. } => account_to_str(from),
    }
}

/// The `to` column of `tx`.
pub fn get_to(tx: &Transaction) -> (r: String)
    requires
        tx.wf(),
    ensures
        r@ == to_text(*tx),
{
    match tx {
        Transaction::Burn { .. } => String::new(),
        Transaction::Mint { to, .. } => account_to_str(to),
        Transaction::Transfer { to, .. } => account_to_str(to),
    }
}

/// The `fee` column of `tx`.
pub fn get_fee(tx: &Transaction) -> (r: String)
    ensures
        r@ == fee_text(*tx),
{
    match tx {
        Transaction::Transfer { fee: Some(f), .. } => to_decimal(*f),
        _ => String::new(),
    }
}

/// A memo in upper-case hexadecimal, two digits per byte.
pub fn memo_to_str(memo: &Vec<u8>) -> (r: String)
    ensures
        r@ == hex_upper(memo@),
{
    to_hex(memo.as_slice())
}

/// The row for `tx` at position `idx`: its nine columns joined by `|`.
pub fn tx_to_tsv(idx: u64, tx: Transaction) -> (r: String)
    requires
        tx.wf(),
    ensures
        r@ == row_text(idx, tx),
{
    let mut r = String::new();
    push_decimal(&mut r, idx as u128);
    r.push('|');
    r.append(tx.get_kind());
    r.push('|');
    let datetime = timestamp_to_utc_rtc3339(&tx.get_timestamp());
    r.append(datetime.as_str());
    r.push('|');
    let from = get_from(&tx);
    r.append(from.as_str());
    r.push('|');
    let to = get_to(&tx);
    r.append(to.as_str());
    r.push('|');
    push_decimal(&mut r, tx.get_amount());
    r.push('|');
    let fee = get_fee(&tx);
    r.append(fee.as_str());
    r.push('|');
    match tx.get_memo() {
        Some(m) => {
            let memo = memo_to_str(m);
            r.append(memo.as_str());
        },
        None => {},
    }
    r.push('|');
    match tx.get_created_at_time() {
        Some(t) => {
            let created = timestamp_to_utc_rtc3339(t);
            r.append(created.as_str());
        },
        None => {},
    }
    assert(r@ =~= row_text(idx, tx));
    r
}

} // verus!
