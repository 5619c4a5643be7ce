use vstd::prelude::*;
use crate::account::account_text;
use crate::fetch::{
    diagnostic_text, emission_of, emissions, flatten, listing, EmissionView,
    GetTransactionsResponse, TransactionRange,
};
use crate::row::{bar, created_text, memo_text, row_text};
use crate::text::decimal;
use crate::time::timestamp_text;
use crate::transaction::{
    burn_kind, mint_kind, normalize_spec, transfer_kind, NormalizeError, RawTransaction,
    Transaction,
};

verus! {

/// A valid record of each kind normalises, and its row is made of the record's
/// own fields: nothing in the columns is lost or altered on the way.
pub proof fn lemma_normalized_row(idx: u64, raw: RawTransaction)
    ensures
        raw.kind@ == mint_kind() ==> (raw.mint matches Some(m) ==> {
            &&& normalize_spec(raw) is Ok
            &&& row_text(idx, normalize_spec(raw)->Ok_0) == decimal(idx as nat) + bar()
                + mint_kind() + bar() + timestamp_text(raw.timestamp) + bar() + bar()
                + account_text(m.to) + bar() + decimal(m.amount as nat) + bar() + bar()
                + memo_text(m.memo) + bar() + created_text(m.created_at_time)
        }),
        raw.kind@ == burn_kind() ==> (raw.burn matches Some(b) ==> {
            &&& normalize_spec(raw) is Ok
            &&& row_text(idx, normalize_spec(raw)->Ok_0) == decimal(idx as nat) + bar()
                + burn_kind() + bar() + timestamp_text(raw.timestamp) + bar() + account_text(
                b.from,
            ) + bar() + bar() + decimal(b.amount as nat) + bar() + bar() + memo_text(b.memo)
                + bar() + created_text(b.created_at_time)
        }),
        raw.kind@ == transfer_kind() ==> (raw.transfer matches Some(t) ==> {
            &&& normalize_spec(raw) is Ok
            &&& row_text(idx, normalize_spec(raw)->Ok_0) == decimal(idx as nat) + bar()
                + transfer_kind() + bar() + timestamp_text(raw.timestamp) + bar() + account_text(
                t.from,
            ) + bar() + account_text(t.to) + bar() + decimal(t.amount as nat) + bar() + (match t.fee {
                Some(f) => decimal(f as nat),
                None => Seq::empty(),
            }) + bar() + memo_text(t.memo) + bar() + created_text(t.created_at_time)
        }),
{
    assert(mint_kind() != burn_kind());
    assert(mint_kind() != transfer_kind());
    assert(burn_kind() != transfer_kind());
    if raw.kind@ == mint_kind() && raw.mint is Some {
        assert(row_text(idx, normalize_spec(raw)->Ok_0) =~= decimal(idx as nat) + bar()
            + mint_kind() + bar() + timestamp_text(raw.timestamp) + bar() + bar() + account_text(
            raw.mint->0.to,
        ) + bar() + decimal(raw.mint->0.amount as nat) + bar() + bar() + memo_text(
            raw.mint->0.memo,
        ) + bar() + created_text(raw.mint->0.created_at_time));
    }
    if raw.kind@ == burn_kind() && raw.burn is Some {
        assert(row_text(idx, normalize_spec(raw)->Ok_0) =~= decimal(idx as nat) + bar()
            + burn_kind() + bar() + timestamp_text(raw.timestamp) + bar() + account_text(
            raw.burn->0.from,
        ) + bar() + bar() + decimal(raw.burn->0.amount as nat) + bar() + bar() + memo_text(
            raw.burn->0.memo,
        ) + bar() + created_text(raw.burn->0.created_at_time));
    }
}

/// The record consumed in position `i` of a run numbered from `start` carries
/// the index `start + i`, one emission per record.
pub proof fn lemma_indices_consecutive(start: int, txs: Seq<RawTransaction>)
    ensures
        emissions(start, txs).len() == txs.len(),
        forall|i: int| 0 <= i < txs.len() ==> #[trigger] emissions(start, txs)[i].index() == start + i,
{
}

/// The archive records and the ledger's own records concatenated.
pub proof fn lemma_flatten_split(ranges: Seq<TransactionRange>, j: int)
    requires
        0 <= j <= ranges.len(),
    ensures
        flatten(ranges) == flatten(ranges.subrange(0, j)) + flatten(
            ranges.subrange(j, ranges.len() as int),
        ),
    decreases ranges.len(),
{
    if j == ranges.len() {
        assert(ranges.subrange(0, j) =~= ranges);
        assert(flatten(ranges.subrange(j, ranges.len() as int)) =~= Seq::<RawTransaction>::empty());
    } else {
        let p = ranges.drop_last();
        lemma_flatten_split(p, j);
        assert(p.subrange(0, j) =~= ranges.subrange(0, j));
        assert(ranges.subrange(j, ranges.len() as int).drop_last() =~= p.subrange(j, p.len() as int));
        assert(flatten(ranges) =~= flatten(ranges.subrange(0, j)) + flatten(
            ranges.subrange(j, ranges.len() as int),
        ));
    }
}

/// In a listing, the records of delegated range `j` are emitted, in their own
/// order, right after those of ranges `0 .. j`, and the ledger's own slice is
/// emitted after every delegated range.
pub proof fn lemma_delegations_first(
    start: int,
    res: GetTransactionsResponse,
    archived: Seq<TransactionRange>,
    j: int,
)
    requires
        0 <= j < archived.len(),
    ensures
        ({
            let all = emissions(start, listing(res, archived));
            let off = flatten(archived.subrange(0, j)).len();
            let n = archived[j].transactions@.len();
            all.subrange(off as int, (off + n) as int) == emissions(start + off, archived[j].transactions@)
        }),
        ({
            let all = emissions(start, listing(res, archived));
            let off = flatten(archived).len();
            all.subrange(off as int, all.len() as int) == emissions(
                start + off,
                res.transactions@,
            )
        }),
{
    let all = emissions(start, listing(res, archived));
    let off = flatten(archived.subrange(0, j)).len();
    let txs = archived[j].transactions@;
    lemma_flatten_split(archived, j);
    let tail = archived.subrange(j, archived.len() as int);
    assert(tail.subrange(0, 1) =~= seq![archived[j]]);
    lemma_flatten_split(tail, 1);
    assert(seq![archived[j]].drop_last() =~= Seq::<TransactionRange>::empty());
    assert(flatten(seq![archived[j]]) =~= txs) by {
        reveal_with_fuel(flatten, 2);
    }
    let rest = flatten(tail.subrange(1, tail.len() as int));
    assert(listing(res, archived) =~= flatten(archived.subrange(0, j)) + txs + rest
        + res.transactions@);
    assert(all.subrange(off as int, (off + txs.len()) as int) =~= emissions(start + off, txs));
    let f = flatten(archived).len();
    assert(all.subrange(f as int, all.len() as int) =~= emissions(start + f, res.transactions@));
}

/// A record whose kind is unknown yields exactly one emission, a diagnostic
/// naming its index and kind; the records around it keep their indices.
pub proof fn lemma_unknown_kind_skipped(start: int, txs: Seq<RawTransaction>, k: int)
    requires
        0 <= k < txs.len(),
        txs[k].kind@ != mint_kind(),
        txs[k].kind@ != burn_kind(),
        txs[k].kind@ != transfer_kind(),
    ensures
        emissions(start, txs) == emissions(start, txs.subrange(0, k)) + seq![
            EmissionView::Diagnostic {
                index: start + k,
                text: diagnostic_text(start + k, NormalizeError::UnknownKind(txs[k].kind)),
            },
        ] + emissions(start + k + 1, txs.subrange(k + 1, txs.len() as int)),
{
    assert(emission_of(start + k, txs[k]) == EmissionView::Diagnostic {
        index: start + k,
        text: diagnostic_text(start + k, NormalizeError::UnknownKind(txs[k].kind)),
    });
    let a = emissions(start, txs.subrange(0, k));
    let b = emissions(start + k + 1, txs.subrange(k + 1, txs.len() as int));
    assert forall|i: int| k < i < txs.len() implies #[trigger] emissions(start, txs)[i] == b[i - k - 1] by {
        assert(txs.subrange(k + 1, txs.len() as int)[i - k - 1] == txs[i]);
        assert(start + k + 1 + (i - k - 1) == start + i);
    }
    assert(emissions(start, txs) =~= emissions(start, txs.subrange(0, k)) + seq![
        emission_of(start + k, txs[k]),
    ] + emissions(start + k + 1, txs.subrange(k + 1, txs.len() as int)));
}

} // verus!
