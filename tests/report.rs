use ledger_txs::{
    account_to_str, archive_request, emit_slice, collect_emissions, emit, get_fee, get_from, get_length, get_to,
    length_request, memo_to_str, normalize, subaccount_to_str, timestamp_to_utc_rtc3339,
    tx_to_tsv, Account, ArchiveDelegation, Burn, Emission, FetchError, GetTransactionsResponse,
    Mint, NormalizeError, RawTransaction, Transaction, TransactionRange, Transfer, HEADER,
};
use ledger_txs::text::{to_decimal, to_hex};

const LEDGER: &str = "zfcdd-tqaaa-aaaaq-aaaga-cai";
const TS: u64 = 1_700_000_000_123_456_789;
const TS_TEXT: &str = "2023-11-14T22:13:20.123+00:00";
const EPOCH_TEXT: &str = "1970-01-01T00:00:00.000+00:00";

fn ledger_bytes() -> Vec<u8> {
    candid::Principal::from_text(LEDGER).unwrap().as_slice().to_vec()
}

fn anonymous() -> Account {
    Account { owner: vec![], subaccount: None }
}

fn ledger_account() -> Account {
    Account { owner: ledger_bytes(), subaccount: None }
}

fn raw(kind: &str, timestamp: u64) -> RawTransaction {
    RawTransaction { kind: kind.to_string(), timestamp, mint: None, burn: None, transfer: None }
}

fn raw_mint(timestamp: u64, amount: u128) -> RawTransaction {
    let mut r = raw("mint", timestamp);
    r.mint = Some(Mint { to: anonymous(), amount, memo: None, created_at_time: None });
    r
}

fn raw_transfer() -> RawTransaction {
    let mut r = raw("transfer", TS);
    r.transfer = Some(Transfer {
        from: Account { owner: vec![], subaccount: Some([1u8; 32]) },
        to: ledger_account(),
        amount: 5,
        fee: Some(10),
        memo: Some(vec![0xAB, 0xCD]),
        created_at_time: Some(TS),
    });
    r
}

fn row(e: &Emission) -> (u64, String) {
    match e {
        Emission::Row { index, text } => (*index, text.clone()),
        Emission::Diagnostic { index, text } => panic!("diagnostic at {}: {}", index, text),
    }
}

#[test]
fn hex_of_bytes_is_upper_case_two_digits_each() {
    assert_eq!(to_hex(&[0x00, 0x0f, 0xa0, 0xff]), "000FA0FF");
    assert_eq!(to_hex(&[]), "");
    assert_eq!(memo_to_str(&vec![0xde, 0xad, 0xbe, 0xef]), "DEADBEEF");
}

#[test]
fn decimal_text_has_no_grouping() {
    assert_eq!(to_decimal(0), "0");
    assert_eq!(to_decimal(12345), "12345");
    assert_eq!(to_decimal(1_000_000), "1000000");
    assert_eq!(to_decimal(u128::MAX), "340282366920938463463374607431768211455");
}

#[test]
fn subaccount_text_is_sixty_four_digits() {
    assert_eq!(subaccount_to_str([0u8; 32]), "0".repeat(64));
    let mut s = [0u8; 32];
    s[0] = 0xAB;
    s[31] = 0x01;
    let t = subaccount_to_str(s);
    assert_eq!(t.len(), 64);
    assert!(t.starts_with("AB00"));
    assert!(t.ends_with("0001"));
}

#[test]
fn account_without_subaccount_has_trailing_space() {
    assert_eq!(account_to_str(&anonymous()), "aaaaa-aa ");
    assert_eq!(account_to_str(&ledger_account()), format!("{} ", LEDGER));
}

#[test]
fn account_with_zero_subaccount_has_sixty_four_zeros() {
    let a = Account { owner: ledger_bytes(), subaccount: Some([0u8; 32]) };
    assert_eq!(account_to_str(&a), format!("{} {}", LEDGER, "0".repeat(64)));
}

#[test]
fn timestamp_zero_is_the_epoch() {
    assert_eq!(timestamp_to_utc_rtc3339(&0), EPOCH_TEXT);
}

#[test]
fn timestamp_has_millisecond_precision() {
    assert_eq!(timestamp_to_utc_rtc3339(&TS), TS_TEXT);
}

#[test]
fn timestamp_rendering_is_deterministic() {
    let a = timestamp_to_utc_rtc3339(&TS);
    let b = timestamp_to_utc_rtc3339(&TS);
    assert_eq!(a, b);
    assert_eq!(timestamp_to_utc_rtc3339(&u64::MAX), timestamp_to_utc_rtc3339(&u64::MAX));
}

#[test]
fn normalize_mint() {
    let t = normalize(raw_mint(7, 100)).unwrap();
    assert_eq!(t.get_kind(), "mint");
    assert_eq!(t.get_timestamp(), 7);
    assert_eq!(t.get_amount(), 100);
    assert_eq!(t.get_memo(), None);
    assert_eq!(t.get_created_at_time(), None);
    assert_eq!(get_from(&t), "");
    assert_eq!(get_to(&t), "aaaaa-aa ");
}

#[test]
fn normalize_burn() {
    let mut r = raw("burn", 9);
    r.burn = Some(Burn {
        from: ledger_account(),
        amount: 3,
        memo: Some(vec![1, 2]),
        created_at_time: Some(0),
    });
    let t = normalize(r).unwrap();
    assert_eq!(t.get_kind(), "burn");
    assert_eq!(t.get_memo(), Some(&vec![1, 2]));
    assert_eq!(t.get_created_at_time(), Some(&0));
    assert_eq!(get_from(&t), format!("{} ", LEDGER));
    assert_eq!(get_to(&t), "");
    assert_eq!(get_fee(&t), "");
    assert_eq!(
        tx_to_tsv(4, t),
        format!("4|burn|{}|{} ||3||0102|{}", EPOCH_TEXT, LEDGER, EPOCH_TEXT)
    );
}

#[test]
fn normalize_transfer_round_trips_every_column() {
    let t = normalize(raw_transfer()).unwrap();
    assert_eq!(t.get_kind(), "transfer");
    assert_eq!(get_fee(&t), "10");
    let expected = format!(
        "12|transfer|{}|aaaaa-aa {}|{} |5|10|ABCD|{}",
        TS_TEXT,
        "01".repeat(32),
        LEDGER,
        TS_TEXT
    );
    assert_eq!(tx_to_tsv(12, t), expected);
}

#[test]
fn mint_row_leaves_from_and_fee_empty() {
    let t = normalize(raw_mint(0, 100)).unwrap();
    assert_eq!(tx_to_tsv(0, t), format!("0|mint|{}||aaaaa-aa |100|||", EPOCH_TEXT));
}

#[test]
fn transfer_without_fee_has_empty_fee_column() {
    let t = Transaction::Transfer {
        timestamp: 0,
        from: anonymous(),
        to: anonymous(),
        amount: 1,
        fee: None,
        memo: None,
        created_at_time: None,
    };
    assert_eq!(tx_to_tsv(1, t), format!("1|transfer|{}|aaaaa-aa |aaaaa-aa |1|||", EPOCH_TEXT));
}

#[test]
fn unknown_kind_is_rejected() {
    assert_eq!(normalize(raw("approve", 0)), Err(NormalizeError::UnknownKind("approve".to_string())));
}

#[test]
fn missing_body_is_rejected() {
    assert_eq!(normalize(raw("mint", 0)), Err(NormalizeError::MissingBody("mint".to_string())));
    assert_eq!(normalize(raw("transfer", 0)), Err(NormalizeError::MissingBody("transfer".to_string())));
}

#[test]
fn unknown_kind_gives_one_diagnostic() {
    assert_eq!(
        emit(5, raw("approve", 0)),
        Emission::Diagnostic { index: 5, text: "Error on tx 5: Unknown kind approve".to_string() }
    );
    assert_eq!(
        emit(6, raw("burn", 0)),
        Emission::Diagnostic { index: 6, text: "Error on tx 6: No body for burn".to_string() }
    );
}

fn response(txs: Vec<RawTransaction>, delegations: Vec<ArchiveDelegation>) -> GetTransactionsResponse {
    GetTransactionsResponse { log_length: 2, transactions: txs, archived_transactions: delegations }
}

fn delegation(start: u64, length: u64) -> ArchiveDelegation {
    ArchiveDelegation { callee: ledger_bytes(), method: "get_transactions".to_string(), start, length }
}

fn range(txs: Vec<RawTransaction>) -> TransactionRange {
    TransactionRange { transactions: txs, archived_transactions: vec![] }
}

#[test]
fn delegated_mint_then_live_transfer() {
    let res = response(vec![raw_transfer()], vec![delegation(0, 1)]);
    let out = collect_emissions(0, res, vec![range(vec![raw_mint(0, 100)])]).unwrap();
    assert_eq!(out.len(), 2);
    let (i0, r0) = row(&out[0]);
    let (i1, r1) = row(&out[1]);
    assert_eq!(i0, 0);
    assert!(r0.starts_with("0|mint|"));
    assert_eq!(i1, 1);
    assert!(r1.starts_with("1|transfer|"));
}

#[test]
fn indices_run_on_across_ranges_and_past_skipped_records() {
    let res = response(vec![raw_mint(0, 1), raw_mint(0, 2)], vec![delegation(10, 2), delegation(12, 1)]);
    let archived = vec![range(vec![raw_mint(0, 3), raw("approve", 0)]), range(vec![raw_mint(0, 4)])];
    let out = collect_emissions(10, res, archived).unwrap();
    assert_eq!(out.len(), 5);
    assert_eq!(row(&out[0]).1, format!("10|mint|{}||aaaaa-aa |3|||", EPOCH_TEXT));
    assert_eq!(
        out[1],
        Emission::Diagnostic { index: 11, text: "Error on tx 11: Unknown kind approve".to_string() }
    );
    assert_eq!(row(&out[2]).1, format!("12|mint|{}||aaaaa-aa |4|||", EPOCH_TEXT));
    assert_eq!(row(&out[3]).1, format!("13|mint|{}||aaaaa-aa |1|||", EPOCH_TEXT));
    assert_eq!(row(&out[4]).1, format!("14|mint|{}||aaaaa-aa |2|||", EPOCH_TEXT));
}

#[test]
fn empty_listing_has_no_rows() {
    let out = collect_emissions(0, response(vec![], vec![]), vec![]).unwrap();
    assert!(out.is_empty());
}

#[test]
fn archive_count_must_match_delegations() {
    let res = response(vec![], vec![delegation(0, 1)]);
    assert_eq!(
        collect_emissions(0, res, vec![]),
        Err(FetchError::ArchiveCountMismatch { expected: 1, got: 0 })
    );
}

#[test]
fn nested_delegation_is_an_error() {
    let res = response(vec![], vec![delegation(0, 1), delegation(1, 1)]);
    let mut nested = range(vec![]);
    nested.archived_transactions.push(delegation(1, 1));
    let archived = vec![range(vec![raw_mint(0, 1)]), nested];
    assert_eq!(
        collect_emissions(0, res, archived),
        Err(FetchError::NestedDelegation { position: 1 })
    );
}

#[test]
fn index_overflow_is_an_error() {
    let res = response(vec![raw_mint(0, 1), raw_mint(0, 2)], vec![]);
    assert_eq!(collect_emissions(u64::MAX - 1, res, vec![]), Err(FetchError::IndexOverflow));
    let res = response(vec![raw_mint(0, 1)], vec![]);
    assert_eq!(collect_emissions(u64::MAX - 1, res, vec![]).unwrap().len(), 1);
}

#[test]
fn length_is_read_from_the_response() {
    let res = GetTransactionsResponse { log_length: 12345, transactions: vec![], archived_transactions: vec![] };
    assert_eq!(get_length(&res), 12345);
    let req = length_request();
    assert_eq!((req.start, req.length), (0, 1));
}

#[test]
fn header_names_nine_columns() {
    assert_eq!(HEADER, "block index|kind|datetime|from|to|amount|fee|memo|created_at_time");
    assert_eq!(HEADER.split('|').count(), 9);
}

#[test]
fn delegation_gives_its_own_range_to_query() {
    let req = archive_request(&delegation(40, 7));
    assert_eq!((req.start, req.length), (40, 7));
}

#[test]
fn slice_appends_and_returns_next_index() {
    let mut out = vec![emit(0, raw("x", 0))];
    let next = emit_slice(3, vec![raw_mint(0, 8), raw("y", 0)], &mut out);
    assert_eq!(next, 5);
    assert_eq!(out.len(), 3);
    assert_eq!(row(&out[1]), (3, format!("3|mint|{}||aaaaa-aa |8|||", EPOCH_TEXT)));
    assert_eq!(out[2], Emission::Diagnostic { index: 4, text: "Error on tx 4: Unknown kind y".to_string() });
}
