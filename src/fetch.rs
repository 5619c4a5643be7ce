use vstd::prelude::*;
use crate::row::{row_text, tx_to_tsv};
use crate::text::{decimal, push_decimal};
use crate::transaction::{normalize, normalize_spec, NormalizeError, RawTransaction};

verus! {

/// A query for the transactions at positions `start .. start + length`.
#[derive(Clone, Debug, PartialEq, Eq)]
pub struct GetTransactionsRequest {
    pub start: u64,
    pub length: u64,
}

/// An instruction from the ledger to fetch a sub-range from another service.
#[derive(Clone, Debug, PartialEq, Eq)]
pub struct ArchiveDelegation {
    /// Principal bytes of the service that holds the range.
    pub callee: Vec<u8>,
    /// Method to query there.
    pub method: String,
    pub start: u64,
    pub length: u64,
}

/// The ledger's answer to a query.
#[derive(Clone, Debug, PartialEq, Eq)]
pub struct GetTransactionsResponse {
    /// Total number of transactions in the ledger.
    pub log_length: u64,
    /// The ledger's own slice, which follows every delegated range.
    pub transactions: Vec<RawTransaction>,
    /// Delegated ranges, in the order in which they are to be consumed.
    pub archived_transactions: Vec<ArchiveDelegation>,
}

/// An archive service's answer to a delegated query.
#[derive(Clone, Debug, PartialEq, Eq)]
pub struct TransactionRange {
    pub transactions: Vec<RawTransaction>,
    /// Further delegations; an archive is expected to hold none.
    pub archived_transactions: Vec<ArchiveDelegation>,
}

/// One line of output: a row, or a diagnostic for a record that has none.
#[derive(Clone, Debug, PartialEq, Eq)]
pub enum Emission {
    Row { index: u64, text: String },
    Diagnostic { index: u64, text: String },
}

/// What an emission says, as text.
pub enum EmissionView {
    Row { index: int, text: Seq<char> },
    Diagnostic { index: int, text: Seq<char> },
}

impl EmissionView {
    pub open spec fn index(self) -> int {
        match self {
            EmissionView::Row { index, .. } => index,
            EmissionView::Diagnostic { index, .. } => index,
        }
    }
}

impl View for Emission {
    type V = EmissionView;

    open spec fn view(&self) -> EmissionView {
        match self {
            Emission::Row { index, text } => EmissionView::Row { index: *index as int, text: text@ },
            Emission::Diagnostic { index, text } => EmissionView::Diagnostic {
                index: *index as int,
                text: text@,
            },
        }
    }
}

/// Why a listing could not be assembled.
#[derive(Clone, Debug, PartialEq, Eq)]
pub enum FetchError {
    /// The number of archive answers differs from the number of delegations.
    ArchiveCountMismatch { expected: usize, got: usize },
    /// The archive answer at this position delegates again.
    NestedDelegation { position: usize },
    /// Some sequence index would not fit in 64 bits.
    IndexOverflow,
}

pub open spec fn views(s: Seq<Emission>) -> Seq<EmissionView> {
    s.map_values(|e: Emission| e@)
}

/// Text of a normalisation error.
pub open spec fn error_text(e: NormalizeError) -> Seq<char> {
    match e {
        NormalizeError::UnknownKind(k) => seq!['U', 'n', 'k', 'n', 'o', 'w', 'n', ' ', 'k', 'i', 'n', 'd', ' ']
            + k@,
        NormalizeError::MissingBody(k) => seq!['N', 'o', ' ', 'b', 'o', 'd', 'y', ' ', 'f', 'o', 'r', ' ']
            + k@,
    }
}

/// Diagnostic for the record at position `idx`.
pub open spec fn diagnostic_text(idx: int, e: NormalizeError) -> Seq<char> {
    seq!['E', 'r', 'r', 'o', 'r', ' ', 'o', 'n', ' ', 't', 'x', ' '] + decimal(idx as nat) + seq![
        ':',
        ' ',
    ] + error_text(e)
}

/// What the record `raw` at position `idx` produces.
pub open spec fn emission_of(idx: int, raw: RawTransaction) -> EmissionView {
    match normalize_spec(raw) {
        Ok(tx) => EmissionView::Row { index: idx, text: row_text(idx as u64, tx) },
        Err(e) => EmissionView::Diagnostic { index: idx, text: diagnostic_text(idx, e) },
    }
}

/// What the records `txs`, numbered from `start`, produce: one emission each.
pub open spec fn emissions(start: int, txs: Seq<RawTransaction>) -> Seq<EmissionView> {
    Seq::new(txs.len(), |i: int| emission_of(start + i, txs[i]))
}

pub open spec fn all_wf(txs: Seq<RawTransaction>) -> bool {
    forall|i: int| 0 <= i < txs.len() ==> #[trigger] txs[i].wf()
}

/// The records of the archive answers, in order.
pub open spec fn flatten(ranges: Seq<TransactionRange>) -> Seq<RawTransaction>
    decreases ranges.len(),
{
    if ranges.len() == 0 {
        Seq::empty()
    } else {
        flatten(ranges.drop_last()) + ranges.last().transactions@
    }
}

pub open spec fn ranges_wf(ranges: Seq<TransactionRange>) -> bool {
    forall|j: int| 0 <= j < ranges.len() ==> all_wf(#[trigger] ranges[j].transactions@)
}

/// The request that reads the ledger's length: one transaction from the start.
pub fn length_request() -> (r: GetTransactionsRequest)
    ensures
        r.start == 0,
        r.length == 1,
{
    GetTransactionsRequest { start: 0, length: 1 }
}

/// The ledger's total number of transactions, as a response declares it.
pub fn get_length(res: &GetTransactionsResponse) -> (r: u64)
    ensures
        r == res.log_length,
{
    res.log_length
}

/// The request to send to the service named by a delegation.
pub fn archive_request(d: &ArchiveDelegation) -> (r: GetTransactionsRequest)
    ensures
        r.start == d.start,
        r.length == d.length,
{
    GetTransactionsRequest { start: d.start, length: d.length }
}

/// Text of a normalisation error.
pub fn error_message(e: &NormalizeError) -> (r: String)
    ensures
        r@ == error_text(*e),
{
    let mut r = String::new();
    proof {
        reveal_strlit("Unknown kind ");
        reveal_strlit("No body for ");
    }
    match e {
        NormalizeError::UnknownKind(k) => {
            r.append("Unknown kind ");
            r.append(k.as_str());
        },
        NormalizeError::MissingBody(k) => {
            r.append("No body for ");
            r.append(k.as_str());
        },
    }
    assert(r@ =~= error_text(*e));
    r
}

/// The diagnostic for the record at position `idx`.
pub fn diagnostic_line(idx: u64, e: &NormalizeError) -> (r: String)
    ensures
        r@ == diagnostic_text(idx as int, *e),
{
    let mut r = String::new();
    proof {
        reveal_strlit("Error on tx ");
        reveal_strlit(": ");
    }
    r.append("Error on tx ");
    push_decimal(&mut r, idx as u128);
    r.append(": ");
    let m = error_message(e);
    r.append(m.as_str());
    assert(r@ =~= diagnostic_text(idx as int, *e));
    r
}

/// What the record `raw` at position `idx` produces.
pub fn emit(idx: u64, raw: RawTransaction) -> (r: Emission)
    requires
        raw.wf(),
    ensures
        r@ == emission_of(idx as int, raw),
{
    match normalize(raw) {
        Ok(tx) => Emission::Row { index: idx, text: tx_to_tsv(idx, tx) },
        Err(e) => Emission::Diagnostic { index: idx, text: diagnostic_line(idx, &e) },
    }
}

/// Appends what the records `txs`, numbered from `idx`, produce to `out`, and
/// returns the index of the record that would follow them.
pub fn emit_slice(idx: u64, txs: Vec<RawTransaction>, out: &mut Vec<Emission>) -> (next: u64)
    requires
        idx + txs@.len() <= u64::MAX,
        all_wf(txs@),
    ensures
        next == idx + txs@.len(),
        views(final(out)@) == views(old(out)@) + emissions(idx as int, txs@),
{
    let ghost all = txs@;
    let ghost before = views(out@);
    let mut rest = txs;
    let mut i: u64 = idx;
    while rest.len() > 0
        invariant
            idx <= i <= idx + all.len(),
            idx + all.len() <= u64::MAX,
            all_wf(all),
            rest@ == all.subrange(i - idx, all.len() as int),
            views(out@) == before + emissions(idx as int, all.subrange(0, i - idx)),
        decreases rest@.len(),
    {
        let ghost k = i - idx;
        let raw = rest.remove(0);
        assert(raw == all[k]);
        let e = emit(i, raw);
        let ghost prev = out@;
        out.push(e);
        assert(views(out@) =~= views(prev).push(e@));
        i = i + 1;
        proof {
            assert(rest@ =~= all.subrange(i - idx, all.len() as int));
            assert(emissions(idx as int, all.subrange(0, i - idx)) =~= emissions(
                idx as int,
                all.subrange(0, k),
            ).push(emission_of(idx + k, all[k])));
            assert(views(out@) =~= before + emissions(idx as int, all.subrange(0, i - idx)));
        }
    }
    assert(all.subrange(0, all.len() as int) =~= all);
    i
}

/// Some archive answer delegates again.
pub open spec fn any_nested(ranges: Seq<TransactionRange>) -> bool {
    exists|j: int| 0 <= j < ranges.len() && #[trigger] ranges[j].archived_transactions@.len() > 0
}

/// The archive answer at `p` is the first that delegates again.
pub open spec fn first_nested(ranges: Seq<TransactionRange>, p: int) -> bool {
    &&& 0 <= p < ranges.len()
    &&& ranges[p].archived_transactions@.len() > 0
    &&& forall|j: int| 0 <= j < p ==> #[trigger] ranges[j].archived_transactions@.len() == 0
}

/// The records of a listing: every delegated range in order, then the ledger's own slice.
pub open spec fn listing(res: GetTransactionsResponse, archived: Seq<TransactionRange>) -> Seq<
    RawTransaction,
> {
    flatten(archived) + res.transactions@
}

/// Emissions of consecutive record runs follow one another, the numbering running on.
pub proof fn lemma_emissions_concat(start: int, a: Seq<RawTransaction>, b: Seq<RawTransaction>)
    ensures
        emissions(start, a + b) == emissions(start, a) + emissions(start + a.len(), b),
{
    assert(emissions(start, a + b) =~= emissions(start, a) + emissions(start + a.len(), b));
}

/// Taking one more archive answer appends its records.
proof fn lemma_flatten_step(ranges: Seq<TransactionRange>, j: int)
    requires
        0 <= j < ranges.len(),
    ensures
        flatten(ranges.subrange(0, j + 1)) == flatten(ranges.subrange(0, j))
            + ranges[j].transactions@,
{
    assert(ranges.subrange(0, j + 1).drop_last() =~= ranges.subrange(0, j));
}

/// A prefix of the archive answers holds no more records than all of them.
proof fn lemma_flatten_prefix_len(ranges: Seq<TransactionRange>, j: int)
    requires
        0 <= j <= ranges.len(),
    ensures
        flatten(ranges.subrange(0, j)).len() <= flatten(ranges).len(),
    decreases ranges.len(),
{
    if j == ranges.len() {
        assert(ranges.subrange(0, j) =~= ranges);
    } else {
        let p = ranges.drop_last();
        assert(ranges.subrange(0, j) =~= p.subrange(0, j));
        lemma_flatten_prefix_len(p, j);
    }
}

/// Assembles the listing that starts at `start` from the ledger's answer and the
/// answers of its archives, given in the order of the delegations: every
/// delegated range first, then the ledger's own slice, one emission per record.
pub fn collect_emissions(
    start: u64,
    res: GetTransactionsResponse,
    archived: Vec<TransactionRange>,
) -> (r: Result<Vec<Emission>, FetchError>)
    requires
        ranges_wf(archived@),
        all_wf(res.transactions@),
    ensures
        match r {
            Err(FetchError::ArchiveCountMismatch { expected, got }) => {
                &&& expected == res.archived_transactions@.len()
                &&& got == archived@.len()
                &&& expected != got
            },
            Err(FetchError::NestedDelegation { position }) => {
                &&& archived@.len() == res.archived_transactions@.len()
                &&& first_nested(archived@, position as int)
            },
            Err(FetchError::IndexOverflow) => {
                &&& archived@.len() == res.archived_transactions@.len()
                &&& !any_nested(archived@)
                &&& start + listing(res, archived@).len() > u64::MAX
            },
            Ok(out) => {
                &&& archived@.len() == res.archived_transactions@.len()
                &&& !any_nested(archived@)
                &&& start + listing(res, archived@).len() <= u64::MAX
                &&& views(out@) == emissions(start as int, listing(res, archived@))
            },
        },
{
    if archived.len() != res.archived_transactions.len() {
        return Err(
            FetchError::ArchiveCountMismatch {
                expected: res.archived_transactions.len(),
                got: archived.len(),
            },
        );
    }
    let mut j: usize = 0;
    while j < archived.len()
        invariant
            j <= archived@.len(),
            archived@.len() == res.archived_transactions@.len(),
            forall|jj: int| 0 <= jj < j ==> #[trigger] archived@[jj].archived_transactions@.len() == 0,
        decreases archived@.len() - j,
    {
        if archived[j].archived_transactions.len() > 0 {
            return Err(FetchError::NestedDelegation { position: j });
        }
        j = j + 1;
    }
    let n: usize = archived.len();
    let ghost all = archived@;
    let ghost live = res.transactions@;
    let mut out: Vec<Emission> = Vec::new();
    let mut idx: u64 = start;
    let mut rest = archived;
    let mut j: usize = 0;
    proof {
        assert(all.subrange(0, 0) =~= Seq::<TransactionRange>::empty());
        assert(views(out@) =~= emissions(start as int, flatten(all.subrange(0, 0))));
    }
    while rest.len() > 0
        invariant
            j <= all.len(),
            all.len() == n,
            all == archived@,
            n == res.archived_transactions@.len(),
            live == res.transactions@,
            ranges_wf(all),
            !any_nested(all),
            rest@ == all.subrange(j as int, all.len() as int),
            idx == start + flatten(all.subrange(0, j as int)).len(),
            views(out@) == emissions(start as int, flatten(all.subrange(0, j as int))),
        decreases rest@.len(),
    {
        let range = rest.remove(0);
        assert(range == all[j as int]);
        let TransactionRange { transactions: txs, .. } = range;
        proof {
            lemma_flatten_step(all, j as int);
            lemma_flatten_prefix_len(all, j + 1);
        }
        if txs.len() as u64 > u64::MAX - idx {
            return Err(FetchError::IndexOverflow);
        }
        let ghost prev = flatten(all.subrange(0, j as int));
        proof {
            assert(all_wf(all[j as int].transactions@));
        }
        idx = emit_slice(idx, txs, &mut out);
        proof {
            lemma_emissions_concat(start as int, prev, all[j as int].transactions@);
        }
        j = j + 1;
        assert(rest@ =~= all.subrange(j as int, all.len() as int));
    }
    assert(all.subrange(0, all.len() as int) =~= all);
    let GetTransactionsResponse { transactions, .. } = res;
    if transactions.len() as u64 > u64::MAX - idx {
        return Err(FetchError::IndexOverflow);
    }
    emit_slice(idx, transactions, &mut out);
    proof {
        lemma_emissions_concat(start as int, flatten(all), live);
    }
    Ok(out)
}

} // verus!
