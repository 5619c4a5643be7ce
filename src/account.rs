use vstd::prelude::*;
use crate::text::{hex_upper, push_hex, to_hex};

verus! {

/// Largest number of bytes in a principal identifier.
pub const MAX_OWNER_BYTES: usize = 29;

/// Identity of a ledger holder: the owner principal, given by its bytes, and an
/// optional 32-byte subaccount.
#[derive(Clone, Debug, PartialEq, Eq)]
pub struct Account {
    pub owner: Vec<u8>,
    pub subaccount: Option<[u8; 32]>,
}

impl Account {
    /// The owner bytes form a principal.
    pub open spec fn wf(&self) -> bool {
        self.owner@.len() <= MAX_OWNER_BYTES
    }
}

/// Textual form of the principal whose bytes are given.
pub uninterp spec fn principal_text(bytes: Seq<u8>) -> Seq<char>;

/// Relies on candid's `Principal::from_slice` and `Principal::to_text`: the textual
/// form of the principal with these bytes; `from_slice` panics beyond 29 bytes.
#[verifier::external_body]
fn owner_text(bytes: &[u8]) -> (r: String)
    requires
        bytes@.len() <= MAX_OWNER_BYTES,
    ensures
        r@ == principal_text(bytes@),
{
    candid::Principal::from_slice(bytes).to_text()
}

/// Text of an optional subaccount: its hexadecimal digits, or nothing.
pub open spec fn subaccount_text(s: Option<[u8; 32]>) -> Seq<char> {
    match s {
        Some(b) => hex_upper(b@),
        None => Seq::empty(),
    }
}

/// Text of an account: owner text, one space, then the subaccount text.
pub open spec fn account_text(a: Account) -> Seq<char> {
    principal_text(a.owner@) + seq![' '] + subaccount_text(a.subaccount)
}

/// Sixty-four upper-case hexadecimal digits of a subaccount.
pub fn subaccount_to_str(subaccount: [u8; 32]) -> (r: String)
    ensures
        r@ == hex_upper(subaccount@),
        r@.len() == 64,
{
    proof {
        lemma_hex_len(subaccount@);
    }
    to_hex(subaccount.as_slice())
}

/// Text of `account`, as `account_text` gives it.
pub fn account_to_str(account: &Account) -> (r: String)
    requires
        account.wf(),
    ensures
        r@ == account_text(*account),
{
    let mut r = owner_text(account.owner.as_slice());
    r.push(' ');
    match &account.subaccount {
        Some(s) => push_hex(&mut r, s.as_slice()),
        None => {},
    }
    assert(r@ =~= account_text(*account));
    r
}

/// Hexadecimal text has two digits per byte.
pub proof fn lemma_hex_len(b: Seq<u8>)
    ensures
        hex_upper(b).len() == 2 * b.len(),
    decreases b.len(),
{
    if b.len() > 0 {
        lemma_hex_len(b.drop_last());
    }
}

/// Bytes that are all zero have hexadecimal text made of zeros only.
pub proof fn lemma_hex_of_zeros(b: Seq<u8>)
    requires
        forall|i: int| 0 <= i < b.len() ==> b[i] == 0,
    ensures
        hex_upper(b) == Seq::new(2 * b.len(), |i: int| '0'),
    decreases b.len(),
{
    if b.len() > 0 {
        let p = b.drop_last();
        lemma_hex_of_zeros(p);
        assert(b.last() == 0);
        assert(hex_upper(b) =~= Seq::new(2 * b.len(), |i: int| '0'));
    } else {
        assert(hex_upper(b) =~= Seq::new(0, |i: int| '0'));
    }
}

/// An account without subaccount renders as its owner text and one trailing
/// space; one whose subaccount is all zero adds sixty-four `0` digits.
pub proof fn lemma_account_text_shapes(a: Account)
    ensures
        a.subaccount is None ==> account_text(a) == principal_text(a.owner@) + seq![' '],
        (a.subaccount matches Some(s) && (forall|i: int| 0 <= i < 32 ==> s@[i] == 0))
            ==> account_text(a) == principal_text(a.owner@) + seq![' '] + Seq::new(
            64,
            |i: int| '0',
        ),
{
    if a.subaccount is None {
        assert(account_text(a) =~= principal_text(a.owner@) + seq![' ']);
    }
    if let Some(s) = a.subaccount {
        if forall|i: int| 0 <= i < 32 ==> s@[i] == 0 {
            lemma_hex_of_zeros(s@);
        }
    }
}

} // verus!
