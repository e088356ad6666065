//! What one block contributes to the store: the transfers of its
//! transactions, in block order, up to the first one that cannot be extracted.

use crate::error::AggregatorError;
use crate::timestamp::{checked_timestamp, utc_timestamp_text};
use crate::transfer::{extract, extraction, RawTransaction, Transfer, TransferView};
use vstd::prelude::*;

verus! {

/// A confirmed block as retrieved for a slot.
#[derive(Debug, Clone)]
pub struct Block {
    /// The block's transactions, in order.
    pub transactions: Vec<RawTransaction>,
    /// Seconds since the epoch, where the ledger reports them.
    pub block_time: Option<i64>,
}

/// The result of processing one block: the transfers to persist, in order,
/// and how processing ended.
#[derive(Debug)]
pub struct BlockOutcome {
    /// The transfers extracted before processing ended.
    pub transfers: Vec<Transfer>,
    /// `Ok` where every transaction was extracted, else the failure.
    pub result: Result<(), AggregatorError>,
}

impl BlockOutcome {
    /// Whether the block was refused for its time: nothing to persist.
    pub open spec fn is_time_rejection(self) -> bool {
        self.transfers@.len() == 0 && self.result == Err::<(), AggregatorError>(
            AggregatorError::TimeFetchError,
        )
    }

    /// Whether this is the outcome of extracting `transactions` in order under
    /// `timestamp`: the transfers are those of the longest prefix in which
    /// every transaction extracts, and the result is a parse failure exactly
    /// where that prefix is not the whole list.
    pub open spec fn is_outcome_of(
        self,
        transactions: Seq<RawTransaction>,
        timestamp: Seq<char>,
    ) -> bool {
        &&& self.transfers@.len() <= transactions.len()
        &&& forall|i: int|
            0 <= i < self.transfers@.len() ==> #[trigger] extraction(transactions[i], timestamp)
                == Ok::<TransferView, AggregatorError>(self.transfers@[i]@)
        &&& if self.transfers@.len() == transactions.len() {
            self.result == Ok::<(), AggregatorError>(())
        } else {
            &&& self.result == Err::<(), AggregatorError>(AggregatorError::TransactionParseError)
            &&& extraction(transactions[self.transfers@.len() as int], timestamp) is Err
        }
    }
}

/// Extracts the transactions of a block in order under the block's timestamp
/// text, stopping at the first that fails.
pub fn extract_all(transactions: &Vec<RawTransaction>, timestamp: &str) -> (outcome: BlockOutcome)
    ensures
        outcome.is_outcome_of(transactions@, timestamp@),
{
    let mut transfers: Vec<Transfer> = Vec::new();
    let mut i: usize = 0;
    while i < transactions.len()
        invariant
            i <= transactions.len(),
            transfers@.len() == i,
            forall|k: int|
                0 <= k < i ==> #[trigger] extraction(transactions@[k], timestamp@) == Ok::<
                    TransferView,
                    AggregatorError,
                >(transfers@[k]@),
        decreases transactions.len() - i,
    {
        match extract(&transactions[i], timestamp) {
            Ok(transfer) => {
                transfers.push(transfer);
            },
            Err(_) => {
                return BlockOutcome {
                    transfers,
                    result: Err(AggregatorError::TransactionParseError),
                };
            },
        }
        i += 1;
    }
    BlockOutcome { transfers, result: Ok(()) }
}

/// Processes one block. A block without a block time, or with one that the
/// calendar cannot represent, is refused with `TimeFetchError` and yields no
/// transfer; otherwise its transactions are extracted in order under the
/// block time's text.
pub fn handle_block(block: &Block) -> (outcome: BlockOutcome)
    ensures
        match block.block_time {
            None => outcome.is_time_rejection(),
            Some(time) => match utc_timestamp_text(time as int) {
                None => outcome.is_time_rejection(),
                Some(text) => outcome.is_outcome_of(block.transactions@, text),
            },
        },
{
    let block_time = match block.block_time {
        Some(time) => time,
        None => {
            return BlockOutcome {
                transfers: Vec::new(),
                result: Err(AggregatorError::TimeFetchError),
            };
        },
    };
    match checked_timestamp(block_time) {
        Some(text) => extract_all(&block.transactions, text.as_str()),
        None => BlockOutcome {
            transfers: Vec::new(),
            result: Err(AggregatorError::TimeFetchError),
        },
    }
}

/// A block has one outcome: any two outcomes of the same transactions under
/// the same timestamp agree in their result and in every transfer.
pub proof fn outcome_is_unique(
    transactions: Seq<RawTransaction>,
    timestamp: Seq<char>,
    a: BlockOutcome,
    b: BlockOutcome,
)
    requires
        a.is_outcome_of(transactions, timestamp),
        b.is_outcome_of(transactions, timestamp),
    ensures
        a.result == b.result,
        a.transfers@.len() == b.transfers@.len(),
        forall|i: int| 0 <= i < a.transfers@.len() ==> a.transfers@[i]@ == b.transfers@[i]@,
{
    let la = a.transfers@.len() as int;
    let lb = b.transfers@.len() as int;
    if la < lb {
        assert(extraction(transactions[la], timestamp) is Ok);
    }
    if lb < la {
        assert(extraction(transactions[lb], timestamp) is Ok);
    }
    assert forall|i: int| 0 <= i < a.transfers@.len() implies a.transfers@[i]@
        == b.transfers@[i]@ by {
        assert(extraction(transactions[i], timestamp) == Ok::<TransferView, AggregatorError>(
            a.transfers@[i]@,
        ));
        assert(extraction(transactions[i], timestamp) == Ok::<TransferView, AggregatorError>(
            b.transfers@[i]@,
        ));
    }
}

} // verus!
