//! Extraction of a two-party transfer from a raw transaction: the first two
//! account keys are sender and receiver, and the amount is what the first
//! account's balance lost.

use crate::error::AggregatorError;
use crate::keys::{decoded_key, PublicKey};
use vstd::prelude::*;
use vstd::string::StringExecFns;

verus! {

/// Balance snapshots of the accounts a transaction refers to, in key order.
#[derive(Debug, Clone)]
pub struct RawMeta {
    /// Balances before the transaction.
    pub pre_balances: Vec<u64>,
    /// Balances after the transaction.
    pub post_balances: Vec<u64>,
}

/// The message of a transaction, as the upstream encoding exposes it.
#[derive(Debug, Clone)]
pub enum RawMessage {
    /// Raw form: the account keys as text, in order.
    Raw { account_keys: Vec<String> },
    /// Parsed form, which this library does not read.
    Parsed,
}

/// The encoding a transaction arrived in.
#[derive(Debug, Clone)]
pub enum RawEncoding {
    /// Structured form: the signatures and the message.
    Json { signatures: Vec<String>, message: RawMessage },
    /// Any binary or account-list form, which this library does not read.
    Opaque,
}

/// A transaction as the upstream supplies it.
#[derive(Debug, Clone)]
pub struct RawTransaction {
    /// The transaction proper.
    pub encoding: RawEncoding,
    /// The attached metadata record, if any.
    pub meta: Option<RawMeta>,
}

/// A simplified two-party transfer.
#[derive(Debug, Clone, PartialEq, Eq)]
pub struct Transfer {
    /// The first account of the transaction.
    pub sender: PublicKey,
    /// The second account of the transaction.
    pub receiver: PublicKey,
    /// What the sender's balance lost; negative where it grew.
    pub amount: i64,
    /// The block time as UTC text.
    pub timestamp: String,
    /// The transaction's first signature.
    pub signature: String,
}

/// A transfer as plain mathematical values.
pub struct TransferView {
    /// The sender's 32 bytes.
    pub sender: Seq<u8>,
    /// The receiver's 32 bytes.
    pub receiver: Seq<u8>,
    /// What the sender's balance lost.
    pub amount: int,
    /// The block time as text.
    pub timestamp: Seq<char>,
    /// The first signature.
    pub signature: Seq<char>,
}

impl View for Transfer {
    type V = TransferView;

    open spec fn view(&self) -> TransferView {
        TransferView {
            sender: self.sender@,
            receiver: self.receiver@,
            amount: self.amount as int,
            timestamp: self.timestamp@,
            signature: self.signature@,
        }
    }
}

/// What a balance lost between two snapshots.
pub open spec fn balance_delta(pre: u64, post: u64) -> int {
    pre as int - post as int
}

impl RawMeta {
    /// What the first account's balance lost, where both snapshots hold it
    /// and the difference is a 64-bit signed value.
    pub open spec fn amount(self) -> Option<int> {
        if self.pre_balances@.len() >= 1 && self.post_balances@.len() >= 1 && i64::MIN
            <= balance_delta(self.pre_balances@[0], self.post_balances@[0]) <= i64::MAX {
            Some(balance_delta(self.pre_balances@[0], self.post_balances@[0]))
        } else {
            None
        }
    }
}

impl RawTransaction {
    /// Whether the transaction exposes a raw message and carries metadata.
    pub open spec fn is_readable(self) -> bool {
        self.meta is Some && match self.encoding {
            RawEncoding::Json { message: RawMessage::Raw { .. }, .. } => true,
            _ => false,
        }
    }

    /// The signatures of a readable transaction.
    pub open spec fn signatures(self) -> Seq<String> {
        match self.encoding {
            RawEncoding::Json { signatures, .. } => signatures@,
            RawEncoding::Opaque => Seq::empty(),
        }
    }

    /// The account keys of a readable transaction.
    pub open spec fn account_keys(self) -> Seq<String> {
        match self.encoding {
            RawEncoding::Json { message: RawMessage::Raw { account_keys }, .. } => account_keys@,
            _ => Seq::empty(),
        }
    }

    /// Whether a readable transaction holds all that a transfer is made of:
    /// a signature, two account keys, and a representable amount.
    pub open spec fn is_complete(self) -> bool {
        self.is_readable() && self.signatures().len() >= 1 && self.account_keys().len() >= 2
            && self.meta.unwrap().amount() is Some
    }

    /// Whether the transaction is complete and its first two keys are well formed.
    pub open spec fn is_valid(self) -> bool {
        self.is_complete() && decoded_key(self.account_keys()[0]@) is Some && decoded_key(
            self.account_keys()[1]@,
        ) is Some
    }
}

/// The account key at `index`, decoded; `None` where the list is too short.
pub open spec fn key_at(keys: Seq<String>, index: int) -> Option<Seq<u8>> {
    if 0 <= index < keys.len() {
        decoded_key(keys[index]@)
    } else {
        None
    }
}

/// The transfer made of the parts of a transaction, each `None` where the
/// transaction lacks it or holds it malformed.
pub open spec fn assembled(
    sender: Option<Seq<u8>>,
    receiver: Option<Seq<u8>>,
    amount: Option<int>,
    timestamp: Seq<char>,
    signatures: Seq<String>,
) -> Result<TransferView, AggregatorError> {
    if sender is Some && receiver is Some && amount is Some && signatures.len() >= 1 {
        Ok(
            TransferView {
                sender: sender.unwrap(),
                receiver: receiver.unwrap(),
                amount: amount.unwrap(),
                timestamp,
                signature: signatures[0]@,
            },
        )
    } else {
        Err(AggregatorError::TransactionParseError)
    }
}

/// What extraction yields for a transaction under a block's timestamp text.
pub open spec fn extraction(raw: RawTransaction, timestamp: Seq<char>) -> Result<
    TransferView,
    AggregatorError,
> {
    if !raw.is_readable() {
        Err(AggregatorError::MetaDataFetchError)
    } else {
        assembled(
            key_at(raw.account_keys(), 0),
            key_at(raw.account_keys(), 1),
            raw.meta.unwrap().amount(),
            timestamp,
            raw.signatures(),
        )
    }
}

/// The sender: the first account key, decoded.
pub fn fetch_sender(account_keys: &Vec<String>) -> (r: Option<PublicKey>)
    ensures
        match r {
            Some(key) => key_at(account_keys@, 0) == Some(key@),
            None => key_at(account_keys@, 0) is None,
        },
{
    if account_keys.len() < 1 {
        None
    } else {
        PublicKey::parse(account_keys[0].as_str())
    }
}

/// The receiver: the second account key, decoded.
pub fn fetch_receiver(account_keys: &Vec<String>) -> (r: Option<PublicKey>)
    ensures
        match r {
            Some(key) => key_at(account_keys@, 1) == Some(key@),
            None => key_at(account_keys@, 1) is None,
        },
{
    if account_keys.len() < 2 {
        None
    } else {
        PublicKey::parse(account_keys[1].as_str())
    }
}

/// The amount: what the first account's balance lost, exactly and with its
/// sign; `None` where a snapshot is empty or the difference does not fit.
pub fn fetch_amount(meta: &RawMeta) -> (r: Option<i64>)
    ensures
        match r {
            Some(amount) => meta.amount() == Some(amount as int),
            None => meta.amount() is None,
        },
{
    if meta.pre_balances.len() < 1 || meta.post_balances.len() < 1 {
        return None;
    }
    let pre: u64 = meta.pre_balances[0];
    let post: u64 = meta.post_balances[0];
    if pre >= post {
        let lost: u64 = pre - post;
        if lost <= 0x7fff_ffff_ffff_ffffu64 {
            Some(lost as i64)
        } else {
            None
        }
    } else {
        let gained: u64 = post - pre;
        if gained <= 0x7fff_ffff_ffff_ffffu64 {
            Some(-(gained as i64))
        } else if gained == 0x8000_0000_0000_0000u64 {
            Some(i64::MIN)
        } else {
            None
        }
    }
}

impl Transfer {
    /// A blank transfer: all-zero keys, no amount, empty timestamp and signature.
    pub fn new() -> (transfer: Transfer)
        ensures
            transfer@ == (TransferView {
                sender: Seq::new(32, |i: int| 0u8),
                receiver: Seq::new(32, |i: int| 0u8),
                amount: 0,
                timestamp: Seq::empty(),
                signature: Seq::empty(),
            }),
    {
        let transfer = Transfer {
            sender: PublicKey { bytes: [0u8; 32] },
            receiver: PublicKey { bytes: [0u8; 32] },
            amount: 0,
            timestamp: String::new(),
            signature: String::new(),
        };
        assert(transfer.sender@ =~= Seq::new(32, |i: int| 0u8));
        assert(transfer.receiver@ =~= Seq::new(32, |i: int| 0u8));
        transfer
    }

    /// Puts a transfer together from the parts read off a transaction; any
    /// missing part, or an empty signature list, is a parse failure.
    pub fn assemble(
        sender: Option<PublicKey>,
        receiver: Option<PublicKey>,
        amount: Option<i64>,
        timestamp: &str,
        signatures: &Vec<String>,
    ) -> (r: Result<Transfer, AggregatorError>)
        ensures
            match r {
                Ok(transfer) => Ok(transfer@),
                Err(e) => Err(e),
            } == assembled(
                match sender {
                    Some(key) => Some(key@),
                    None => None,
                },
                match receiver {
                    Some(key) => Some(key@),
                    None => None,
                },
                match amount {
                    Some(a) => Some(a as int),
                    None => None,
                },
                timestamp@,
                signatures@,
            ),
    {
        if signatures.len() < 1 {
            return Err(AggregatorError::TransactionParseError);
        }
        match (sender, receiver, amount) {
            (Some(sender), Some(receiver), Some(amount)) => Ok(
                Transfer {
                    sender,
                    receiver,
                    amount,
                    timestamp: String::from_str(timestamp),
                    signature: signatures[0].clone(),
                },
            ),
            _ => Err(AggregatorError::TransactionParseError),
        }
    }
}

/// Extracts the transfer of one transaction under its block's timestamp text.
///
/// A transaction without metadata or without a raw message is refused with
/// `MetaDataFetchError`; one that lacks a signature, a second account key or
/// a representable amount, or whose first two keys are malformed, with
/// `TransactionParseError`.
pub fn extract(raw: &RawTransaction, timestamp: &str) -> (r: Result<Transfer, AggregatorError>)
    ensures
        match r {
            Ok(transfer) => Ok(transfer@),
            Err(e) => Err(e),
        } == extraction(*raw, timestamp@),
{
    let meta = match &raw.meta {
        Some(meta) => meta,
        None => {
            return Err(AggregatorError::MetaDataFetchError);
        },
    };
    match &raw.encoding {
        RawEncoding::Json { signatures, message: RawMessage::Raw { account_keys } } => {
            let sender = fetch_sender(account_keys);
            let receiver = fetch_receiver(account_keys);
            let amount = fetch_amount(meta);
            Transfer::assemble(sender, receiver, amount, timestamp, signatures)
        },
        _ => Err(AggregatorError::MetaDataFetchError),
    }
}

/// On every valid transaction extraction succeeds, and its outcome is the
/// first two keys as decoded, the first signature, the given timestamp, and
/// exactly the first balance before minus the first balance after.
pub proof fn extraction_total_on_valid(raw: RawTransaction, timestamp: Seq<char>)
    requires
        raw.is_valid(),
    ensures
        extraction(raw, timestamp) is Ok,
        extraction(raw, timestamp).unwrap().sender == decoded_key(raw.account_keys()[0]@).unwrap(),
        extraction(raw, timestamp).unwrap().receiver == decoded_key(
            raw.account_keys()[1]@,
        ).unwrap(),
        extraction(raw, timestamp).unwrap().amount == balance_delta(
            raw.meta.unwrap().pre_balances@[0],
            raw.meta.unwrap().post_balances@[0],
        ),
        extraction(raw, timestamp).unwrap().timestamp == timestamp,
        extraction(raw, timestamp).unwrap().signature == raw.signatures()[0]@,
{
}

/// Whenever extraction succeeds, the transaction was valid and the amount is
/// the exact signed difference of the first balances, whatever the other
/// accounts hold.
pub proof fn extracted_amount_is_exact(raw: RawTransaction, timestamp: Seq<char>)
    requires
        extraction(raw, timestamp) is Ok,
    ensures
        raw.is_valid(),
        extraction(raw, timestamp).unwrap().amount == raw.meta.unwrap().pre_balances@[0]
            - raw.meta.unwrap().post_balances@[0],
        i64::MIN <= extraction(raw, timestamp).unwrap().amount <= i64::MAX,
{
}

/// Extraction reads the first two account keys, the first balance of each
/// snapshot and the first signature, and nothing else: two readable
/// transactions that agree on these have the same outcome, whatever further
/// accounts, balances and signatures they hold.
pub proof fn extraction_reads_first_entries_only(
    a: RawTransaction,
    b: RawTransaction,
    timestamp: Seq<char>,
)
    requires
        a.is_readable(),
        b.is_readable(),
        a.account_keys().len() >= 2,
        b.account_keys().len() >= 2,
        a.account_keys()[0]@ == b.account_keys()[0]@,
        a.account_keys()[1]@ == b.account_keys()[1]@,
        a.signatures().len() >= 1,
        b.signatures().len() >= 1,
        a.signatures()[0]@ == b.signatures()[0]@,
        a.meta.unwrap().pre_balances@.len() >= 1,
        b.meta.unwrap().pre_balances@.len() >= 1,
        a.meta.unwrap().pre_balances@[0] == b.meta.unwrap().pre_balances@[0],
        a.meta.unwrap().post_balances@.len() >= 1,
        b.meta.unwrap().post_balances@.len() >= 1,
        a.meta.unwrap().post_balances@[0] == b.meta.unwrap().post_balances@[0],
    ensures
        extraction(a, timestamp) == extraction(b, timestamp),
{
}

} // verus!
