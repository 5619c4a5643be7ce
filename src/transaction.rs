use vstd::prelude::*;
use crate::account::Account;

verus! {

/// Body of a raw mint record.
#[derive(Clone, Debug, PartialEq, Eq)]
pub struct Mint {
    pub to: Account,
    pub amount: u128,
    pub memo: Option<Vec<u8>>,
    pub created_at_time: Option<u64>,
}

/// Body of a raw burn record.
#[derive(Clone, Debug, PartialEq, Eq)]
pub struct Burn {
    pub from: Account,
    pub amount: u128,
    pub memo: Option<Vec<u8>>,
    pub created_at_time: Option<u64>,
}

/// Body of a raw transfer record.
#[derive(Clone, Debug, PartialEq, Eq)]
pub struct Transfer {
    pub from: Account,
    pub to: Account,
    pub amount: u128,
    pub fee: Option<u128>,
    pub memo: Option<Vec<u8>>,
    pub created_at_time: Option<u64>,
}

/// A transaction record as the ledger sends it: a kind string and three
/// independently optional bodies, of which the kind names the one that counts.
#[derive(Clone, Debug, PartialEq, Eq)]
pub struct RawTransaction {
    pub kind: String,
    pub timestamp: u64,
    pub mint: Option<Mint>,
    pub burn: Option<Burn>,
    pub transfer: Option<Transfer>,
}

/// A normalised transaction: exactly one of the three kinds.
#[derive(Clone, Debug, PartialEq, Eq)]
pub enum Transaction {
    Burn {
        timestamp: u64,
        from: Account,
        amount: u128,
        memo: Option<Vec<u8>>,
        created_at_time: Option<u64>,
    },
    Mint {
        timestamp: u64,
        to: Account,
        amount: u128,
        memo: Option<Vec<u8>>,
        created_at_time: Option<u64>,
    },
    Transfer {
        timestamp: u64,
        from: Account,
        to: Account,
        amount: u128,
        fee: Option<u128>,
        memo: Option<Vec<u8>>,
        created_at_time: Option<u64>,
    },
}

/// Why a raw record could not be normalised.
#[derive(Clone, Debug, PartialEq, Eq)]
pub enum NormalizeError {
    /// The kind string names none of the three kinds.
    UnknownKind(String),
    /// The kind string names a kind whose body is absent.
    MissingBody(String),
}

pub open spec fn burn_kind() -> Seq<char> {
    seq!['b', 'u', 'r', 'n']
}

pub open spec fn mint_kind() -> Seq<char> {
    seq!['m', 'i', 'n', 't']
}

pub open spec fn transfer_kind() -> Seq<char> {
    seq!['t', 'r', 'a', 'n', 's', 'f', 'e', 'r']
}

/// The normalised form of a raw record, or the reason it has none.
pub open spec fn normalize_spec(raw: RawTransaction) -> Result<Transaction, NormalizeError> {
    if raw.kind@ == mint_kind() {
        match raw.mint {
            Some(m) => Ok(
                Transaction::Mint {
                    timestamp: raw.timestamp,
                    to: m.to,
                    amount: m.amount,
                    memo: m.memo,
                    created_at_time: m.created_at_time,
                },
            ),
            None => Err(NormalizeError::MissingBody(raw.kind)),
        }
    } else if raw.kind@ == burn_kind() {
        match raw.burn {
            Some(b) => Ok(
                Transaction::Burn {
                    timestamp: raw.timestamp,
                    from: b.from,
                    amount: b.amount,
                    memo: b.memo,
                    created_at_time: b.created_at_time,
                },
            ),
            None => Err(NormalizeError::MissingBody(raw.kind)),
        }
    } else if raw.kind@ == transfer_kind() {
        match raw.transfer {
            Some(t) => Ok(
                Transaction::Transfer {
                    timestamp: raw.timestamp,
                    from: t.from,
                    to: t.to,
                    amount: t.amount,
                    fee: t.fee,
                    memo: t.memo,
                    created_at_time: t.created_at_time,
                },
            ),
            None => Err(NormalizeError::MissingBody(raw.kind)),
        }
    } else {
        Err(NormalizeError::UnknownKind(raw.kind))
    }
}

/// A string holding the characters of `s`.
pub fn string_of(s: &str) -> (r: String)
    ensures
        r@ == s@,
{
    let mut r = String::new();
    r.append(s);
    r
}

/// Turns a raw record into a transaction of the kind it names.
pub fn normalize(raw: RawTransaction) -> (r: Result<Transaction, NormalizeError>)
    ensures
        r == normalize_spec(raw),
{
    proof {
        reveal_strlit("mint");
        reveal_strlit("burn");
        reveal_strlit("transfer");
        assert("mint"@ =~= mint_kind());
        assert("burn"@ =~= burn_kind());
        assert("transfer"@ =~= transfer_kind());
    }
    let RawTransaction { kind, timestamp, mint, burn, transfer } = raw;
    if kind == string_of("mint") {
        match mint {
            Some(m) => Ok(
                Transaction::Mint {
                    timestamp,
                    to: m.to,
                    amount: m.amount,
                    memo: m.memo,
                    created_at_time: m.created_at_time,
                },
            ),
            None => Err(NormalizeError::MissingBody(kind)),
        }
    } else if kind == string_of("burn") {
        match burn {
            Some(b) => Ok(
                Transaction::Burn {
                    timestamp,
                    from: b.from,
                    amount: b.amount,
                    memo: b.memo,
                    created_at_time: b.created_at_time,
                },
            ),
            None => Err(NormalizeError::MissingBody(kind)),
        }
    } else if kind == string_of("transfer") {
        match transfer {
            Some(t) => Ok(
                Transaction::Transfer {
                    timestamp,
                    from: t.from,
                    to: t.to,
                    amount: t.amount,
                    fee: t.fee,
                    memo: t.memo,
                    created_at_time: t.created_at_time,
                },
            ),
            None => Err(NormalizeError::MissingBody(kind)),
        }
    } else {
        Err(NormalizeError::UnknownKind(kind))
    }
}

impl Mint {
    pub open spec fn wf(&self) -> bool {
        self.to.wf()
    }
}

impl Burn {
    pub open spec fn wf(&self) -> bool {
        self.from.wf()
    }
}

impl Transfer {
    pub open spec fn wf(&self) -> bool {
        self.from.wf() && self.to.wf()
    }
}

impl RawTransaction {
    /// Every account that the record holds is well formed.
    pub open spec fn wf(&self) -> bool {
        &&& (self.mint matches Some(m) ==> m.wf())
        &&& (self.burn matches Some(b) ==> b.wf())
        &&& (self.transfer matches Some(t) ==> t.wf())
    }
}

impl Transaction {
    /// Every account that the transaction holds is well formed.
    pub open spec fn wf(&self) -> bool {
        match self {
            Transaction::Burn { from, .. } => from.wf(),
            Transaction::Mint { to, .. } => to.wf(),
            Transaction::Transfer { from, to, .. } => from.wf() && to.wf(),
        }
    }

    pub open spec fn kind_text(&self) -> Seq<char> {
        match self {
            Transaction::Burn { .. } => burn_kind(),
            Transaction::Mint { .. } => mint_kind(),
            Transaction::Transfer { .. } => transfer_kind(),
        }
    }

    pub open spec fn spec_timestamp(&self) -> u64 {
        match self {
            Transaction::Burn { timestamp, .. } => *timestamp,
            Transaction::Mint { timestamp, .. } => *timestamp,
            Transaction::Transfer { timestamp, .. } => *timestamp,
        }
    }

    pub open spec fn spec_amount(&self) -> u128 {
        match self {
            Transaction::Burn { amount, .. } => *amount,
            Transaction::Mint { amount, .. } => *amount,
            Transaction::Transfer { amount, .. } => *amount,
        }
    }

    pub open spec fn spec_memo(&self) -> Option<Vec<u8>> {
        match self {
            Transaction::Burn { memo, .. } => *memo,
            Transaction::Mint { memo, .. } => *memo,
            Transaction::Transfer { memo, .. } => *memo,
        }
    }

    pub open spec fn spec_created_at_time(&self) -> Option<u64> {
        match self {
            Transaction::Burn { created_at_time, .. } => *created_at_time,
            Transaction::Mint { created_at_time, .. } => *created_at_time,
            Transaction::Transfer { created_at_time, .. } => *created_at_time,
        }
    }

    /// `burn`, `mint` or `transfer`.
    pub fn get_kind(&self) -> (r: &'static str)
        ensures
            r@ == self.kind_text(),
    {
        proof {
            reveal_strlit("burn");
            reveal_strlit("mint");
            reveal_strlit("transfer");
        }
        match self {
            Transaction::Burn { .. } => "burn",
            Transaction::Mint { .. } => "mint",
            Transaction::Transfer { .. } => "transfer",
        }
    }

    /// Nanoseconds since the epoch at which the ledger recorded the transaction.
    pub fn get_timestamp(&self) -> (r: u64)
        ensures
            r == self.spec_timestamp(),
    {
        match self {
            Transaction::Burn { timestamp, .. } => *timestamp,
            Transaction::Mint { timestamp, .. } => *timestamp,
            Transaction::Transfer { timestamp, .. } => *timestamp,
        }
    }

    pub fn get_amount(&self) -> (r: u128)
        ensures
            r == self.spec_amount(),
    {
        match self {
            Transaction::Burn { amount, .. } => *amount,
            Transaction::Mint { amount, .. } => *amount,
            Transaction::Transfer { amount, .. } => *amount,
        }
    }

    pub fn get_memo(&self) -> (r: Option<&Vec<u8>>)
        ensures
            match r {
                Some(m) => self.spec_memo() == Some(*m),
                None => self.spec_memo() is None,
            },
    {
        match self {
            Transaction::Burn { memo, .. } => memo.as_ref(),
            Transaction::Mint { memo, .. } => memo.as_ref(),
            Transaction::Transfer { memo, .. } => memo.as_ref(),
        }
    }

    pub fn get_created_at_time(&self) -> (r: Option<&u64>)
        ensures
            match r {
                Some(t) => self.spec_created_at_time() == Some(*t),
                None => self.spec_created_at_time() is None,
            },
    {
        match self {
            Transaction::Burn { created_at_time, .. } => created_at_time.as_ref(),
            Transaction::Mint { created_at_time, .. } => created_at_time.as_ref(),
            Transaction::Transfer { created_at_time, .. } => created_at_time.as_ref(),
        }
    }
}

} // verus!
