//! Failure kinds of the aggregation pipeline, the store and the process.

use vstd::prelude::*;

verus! {

/// Why ingestion of a slot, a block or a transaction stopped.
#[derive(Debug, Clone, Copy, PartialEq, Eq, Structural)]
pub enum AggregatorError {
    /// The block for a slot could not be retrieved.
    BlockFetchError,
    /// The endpoint configuration is missing or malformed.
    EnvFetchError,
    /// The notification channel could not be opened.
    PubsubClientError,
    /// The slot subscription was refused.
    SlotSubscribeError,
    /// A transaction exposes no raw message or carries no metadata record.
    MetaDataFetchError,
    /// The block carries no usable block time.
    TimeFetchError,
    /// A transaction could not be turned into a transfer.
    TransactionParseError,
    /// The store could not be opened.
    DatabaseError,
}

/// Why a store operation failed.
#[derive(Debug, Clone, Copy, PartialEq, Eq, Structural)]
pub enum DatabaseError {
    /// The store could not be opened.
    ConnectError,
    /// The table could not be created.
    InitTableError,
    /// A row could not be appended.
    InsertionError,
}

/// Why one of the two supervised workers ended the process.
#[derive(Debug, Clone, Copy, PartialEq, Eq, Structural)]
pub enum RuntimeError {
    /// The ingestion worker failed.
    AggregatorError(AggregatorError),
    /// The query service failed.
    WebServerError,
}

impl RuntimeError {
    /// The process-level failure that an ended worker pair amounts to: the
    /// query service's failure takes precedence, then the ingestion worker's
    /// own error; with neither there is no failure.
    pub fn from_workers(web_failed: bool, ingestion: Result<(), AggregatorError>) -> (r: Result<
        (),
        RuntimeError,
    >)
        ensures
            r == Self::spec_from_workers(web_failed, ingestion),
    {
        if web_failed {
            Err(RuntimeError::WebServerError)
        } else {
            match ingestion {
                Err(e) => Err(RuntimeError::AggregatorError(e)),
                Ok(()) => Ok(()),
            }
        }
    }

    /// The outcome of the process as a function of its two workers' outcomes.
    pub open spec fn spec_from_workers(
        web_failed: bool,
        ingestion: Result<(), AggregatorError>,
    ) -> Result<(), RuntimeError> {
        if web_failed {
            Err(RuntimeError::WebServerError)
        } else {
            match ingestion {
                Err(e) => Err(RuntimeError::AggregatorError(e)),
                Ok(()) => Ok(()),
            }
        }
    }
}

} // verus!
