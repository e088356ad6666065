use solana_aggregator::error::AggregatorError;
use solana_aggregator::keys::PublicKey;
use solana_aggregator::transfer::{
    extract, fetch_amount, fetch_receiver, fetch_sender, RawEncoding, RawMessage, RawMeta,
    RawTransaction, Transfer,
};

const KEY_A: &str = "Vote111111111111111111111111111111111111111";
const KEY_B: &str = "SysvarC1ock11111111111111111111111111111111";
const KEY_C: &str = "TokenkegQfeZyiNwAJbNbGKPFXCWuBvf9Ss623VQ5DA";
const SYSTEM: &str = "11111111111111111111111111111111";

fn strings(items: &[&str]) -> Vec<String> {
    items.iter().map(|s| s.to_string()).collect()
}

fn raw(keys: &[&str], signatures: &[&str], pre: Vec<u64>, post: Vec<u64>) -> RawTransaction {
    RawTransaction {
        encoding: RawEncoding::Json {
            signatures: strings(signatures),
            message: RawMessage::Raw { account_keys: strings(keys) },
        },
        meta: Some(RawMeta { pre_balances: pre, post_balances: post }),
    }
}

#[test]
fn three_accounts_yield_first_two_and_first_delta() {
    let tx = raw(&[KEY_A, KEY_B, KEY_C], &["sig1", "sig2"], vec![100, 50, 10], vec![80, 70, 10]);
    let transfer = extract(&tx, "2024-07-28 21:11:50").unwrap();
    assert_eq!(transfer.sender, PublicKey::parse(KEY_A).unwrap());
    assert_eq!(transfer.receiver, PublicKey::parse(KEY_B).unwrap());
    assert_eq!(transfer.sender.to_text(), KEY_A);
    assert_eq!(transfer.receiver.to_text(), KEY_B);
    assert_eq!(transfer.amount, 20);
    assert_eq!(transfer.timestamp, "2024-07-28 21:11:50");
    assert_eq!(transfer.signature, "sig1");
}

#[test]
fn assembling_given_keys_yields_the_transfer() {
    let a = PublicKey { bytes: [1u8; 32] };
    let b = PublicKey { bytes: [2u8; 32] };
    let meta = RawMeta { pre_balances: vec![100, 50, 10], post_balances: vec![80, 70, 10] };
    let got = Transfer::assemble(Some(a), Some(b), fetch_amount(&meta), "t", &strings(&["s"]));
    let want = Transfer {
        sender: a,
        receiver: b,
        amount: 20,
        timestamp: "t".to_string(),
        signature: "s".to_string(),
    };
    assert_eq!(got, Ok(want));
}

#[test]
fn assembling_without_a_part_fails() {
    let a = PublicKey { bytes: [1u8; 32] };
    let sigs = strings(&["s"]);
    let e = Err(AggregatorError::TransactionParseError);
    assert_eq!(Transfer::assemble(None, Some(a), Some(1), "t", &sigs), e);
    assert_eq!(Transfer::assemble(Some(a), None, Some(1), "t", &sigs), e);
    assert_eq!(Transfer::assemble(Some(a), Some(a), None, "t", &sigs), e);
    assert_eq!(Transfer::assemble(Some(a), Some(a), Some(1), "t", &Vec::new()), e);
}

#[test]
fn extraction_is_repeatable() {
    let tx = raw(&[KEY_A, KEY_B], &["sig"], vec![5], vec![9]);
    assert_eq!(extract(&tx, "t"), extract(&tx, "t"));
    assert_eq!(extract(&tx, "t").unwrap().amount, -4);
}

#[test]
fn short_text_is_no_key() {
    let tx = raw(&["A", "B", "C"], &["sig"], vec![100, 50, 10], vec![80, 70, 10]);
    assert_eq!(extract(&tx, "t"), Err(AggregatorError::TransactionParseError));
    assert_eq!(PublicKey::parse("A"), None);
}

#[test]
fn malformed_receiver_is_a_parse_failure() {
    let tx = raw(&[KEY_A, "not a key: 0OIl"], &["sig"], vec![1], vec![1]);
    assert_eq!(extract(&tx, "t"), Err(AggregatorError::TransactionParseError));
}

#[test]
fn missing_metadata_is_reported() {
    let mut tx = raw(&[KEY_A, KEY_B], &["sig"], vec![1], vec![1]);
    tx.meta = None;
    assert_eq!(extract(&tx, "t"), Err(AggregatorError::MetaDataFetchError));
}

#[test]
fn unreadable_encodings_are_reported_as_missing_metadata() {
    let meta = RawMeta { pre_balances: vec![1], post_balances: vec![1] };
    let opaque = RawTransaction { encoding: RawEncoding::Opaque, meta: Some(meta.clone()) };
    assert_eq!(extract(&opaque, "t"), Err(AggregatorError::MetaDataFetchError));
    let parsed = RawTransaction {
        encoding: RawEncoding::Json { signatures: strings(&["sig"]), message: RawMessage::Parsed },
        meta: Some(meta),
    };
    assert_eq!(extract(&parsed, "t"), Err(AggregatorError::MetaDataFetchError));
}

#[test]
fn one_account_key_is_a_parse_failure() {
    let tx = raw(&[KEY_A], &["sig"], vec![1], vec![1]);
    assert_eq!(extract(&tx, "t"), Err(AggregatorError::TransactionParseError));
    let none = raw(&[], &["sig"], vec![1], vec![1]);
    assert_eq!(extract(&none, "t"), Err(AggregatorError::TransactionParseError));
}

#[test]
fn no_signature_is_a_parse_failure() {
    let tx = raw(&[KEY_A, KEY_B], &[], vec![1], vec![1]);
    assert_eq!(extract(&tx, "t"), Err(AggregatorError::TransactionParseError));
}

#[test]
fn empty_balances_are_a_parse_failure() {
    let tx = raw(&[KEY_A, KEY_B], &["sig"], vec![], vec![1]);
    assert_eq!(extract(&tx, "t"), Err(AggregatorError::TransactionParseError));
    let tx = raw(&[KEY_A, KEY_B], &["sig"], vec![1], vec![]);
    assert_eq!(extract(&tx, "t"), Err(AggregatorError::TransactionParseError));
}

#[test]
fn amount_is_the_signed_difference() {
    let amount = |pre: u64, post: u64| {
        fetch_amount(&RawMeta { pre_balances: vec![pre, 7], post_balances: vec![post, 9] })
    };
    assert_eq!(amount(100, 80), Some(20));
    assert_eq!(amount(80, 100), Some(-20));
    assert_eq!(amount(0, 0), Some(0));
    assert_eq!(amount(u64::MAX, u64::MAX), Some(0));
    assert_eq!(amount(u64::MAX, u64::MAX - 1), Some(1));
    assert_eq!(amount(9_223_372_036_854_775_807, 0), Some(i64::MAX));
    assert_eq!(amount(0, 9_223_372_036_854_775_807), Some(-i64::MAX));
    assert_eq!(amount(0, 9_223_372_036_854_775_808), Some(i64::MIN));
}

#[test]
fn unrepresentable_difference_is_refused() {
    let amount = |pre: u64, post: u64| {
        fetch_amount(&RawMeta { pre_balances: vec![pre], post_balances: vec![post] })
    };
    assert_eq!(amount(u64::MAX, 0), None);
    assert_eq!(amount(9_223_372_036_854_775_808, 0), None);
    assert_eq!(amount(0, 9_223_372_036_854_775_809), None);
    let tx = raw(&[KEY_A, KEY_B], &["sig"], vec![u64::MAX], vec![0]);
    assert_eq!(extract(&tx, "t"), Err(AggregatorError::TransactionParseError));
}

#[test]
fn sender_and_receiver_come_from_the_first_two_keys() {
    let keys = strings(&[KEY_A, KEY_B, KEY_C]);
    assert_eq!(fetch_sender(&keys), PublicKey::parse(KEY_A));
    assert_eq!(fetch_receiver(&keys), PublicKey::parse(KEY_B));
    assert_ne!(fetch_sender(&keys), fetch_receiver(&keys));
    assert_eq!(fetch_sender(&Vec::new()), None);
    assert_eq!(fetch_receiver(&strings(&[KEY_A])), None);
}

#[test]
fn all_ones_is_the_all_zero_key() {
    assert_eq!(PublicKey::parse(SYSTEM), Some(PublicKey { bytes: [0u8; 32] }));
    assert_eq!(PublicKey { bytes: [0u8; 32] }.to_text(), SYSTEM);
}

#[test]
fn key_text_round_trips() {
    for text in [KEY_A, KEY_B, KEY_C, SYSTEM] {
        let key = PublicKey::parse(text).unwrap();
        assert_eq!(key.to_text(), text);
        assert_eq!(PublicKey::parse(&key.to_text()), Some(key));
    }
    let key = PublicKey { bytes: [255u8; 32] };
    assert_eq!(PublicKey::parse(&key.to_text()), Some(key));
    assert_eq!(key.to_text(), "JEKNVnkbo3jma5nREBBJCDoXFVeKkD56V3xKrvRmWxFG");
}

#[test]
fn overlong_or_foreign_text_is_no_key() {
    assert_eq!(PublicKey::parse(""), None);
    assert_eq!(PublicKey::parse("Vote1111111111111111111111111111111111111110"), None);
    assert_eq!(PublicKey::parse("111111111111111111111111111111111"), None);
    assert_eq!(PublicKey::parse(&"1".repeat(45)), None);
    assert_eq!(PublicKey::parse("\u{43a}\u{43b}\u{44e}\u{447}"), None);
    assert_eq!(PublicKey::parse("Vote11111111111111111111111111111111111111 "), None);
}

#[test]
fn blank_transfer_is_all_zero() {
    let t = Transfer::new();
    assert_eq!(t.sender.bytes, [0u8; 32]);
    assert_eq!(t.receiver.bytes, [0u8; 32]);
    assert_eq!(t.amount, 0);
    assert_eq!(t.timestamp, "");
    assert_eq!(t.signature, "");
}
