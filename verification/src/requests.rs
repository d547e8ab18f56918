//! The requests that a storage service answers.

use crate::{Epoch, Version};
use vstd::prelude::*;

verus! {

/// A request to the storage service.
#[derive(Clone, Debug, PartialEq, Eq)]
pub struct StorageServiceRequest {
    /// The data that is asked for.
    pub data_request: DataRequest,
    /// Whether the response should be compressed.
    pub use_compression: bool,
}

/// The data that a request asks for.
#[derive(Clone, Debug, PartialEq, Eq)]
pub enum DataRequest {
    /// The epoch-ending ledger infos of a range of epochs.
    GetEpochEndingLedgerInfos(EpochEndingLedgerInfoRequest),
    /// The transaction outputs that follow a known version.
    GetNewTransactionOutputsWithProof(NewTransactionOutputsWithProofRequest),
    /// The transactions that follow a known version.
    GetNewTransactionsWithProof(NewTransactionsWithProofRequest),
    /// The number of states at a version.
    GetNumberOfStatesAtVersion(Version),
    /// The protocol version that the server runs.
    GetServerProtocolVersion,
    /// A chunk of the state values at a version.
    GetStateValuesWithProof(StateValuesWithProofRequest),
    /// The summary of what the server holds.
    GetStorageServerSummary,
    /// The transaction outputs of a range of versions.
    GetTransactionOutputsWithProof(TransactionOutputsWithProofRequest),
    /// The transactions of a range of versions.
    GetTransactionsWithProof(TransactionsWithProofRequest),
    /// The transactions, or else the outputs, that follow a known version.
    GetNewTransactionsOrOutputsWithProof(NewTransactionsOrOutputsWithProofRequest),
    /// The transactions, or else the outputs, of a range of versions.
    GetTransactionsOrOutputsWithProof(TransactionsOrOutputsWithProofRequest),
}

/// Asks for the epoch-ending ledger infos from `start_epoch` to
/// `expected_end_epoch`, both included.
#[derive(Clone, Copy, Debug, PartialEq, Eq)]
pub struct EpochEndingLedgerInfoRequest {
    pub start_epoch: Epoch,
    pub expected_end_epoch: Epoch,
}

/// Asks for the transaction outputs after `known_version`.
#[derive(Clone, Copy, Debug, PartialEq, Eq)]
pub struct NewTransactionOutputsWithProofRequest {
    pub known_version: Version,
    pub known_epoch: Epoch,
}

/// Asks for the transactions after `known_version`.
#[derive(Clone, Copy, Debug, PartialEq, Eq)]
pub struct NewTransactionsWithProofRequest {
    pub known_version: Version,
    pub known_epoch: Epoch,
    pub include_events: bool,
}

/// Asks for the state values at `version` whose indices run from
/// `start_index` to `end_index`, both included.
#[derive(Clone, Copy, Debug, PartialEq, Eq)]
pub struct StateValuesWithProofRequest {
    pub version: Version,
    pub start_index: u64,
    pub end_index: u64,
}

/// Asks for the transaction outputs from `start_version` to `end_version`,
/// both included, with a proof against `proof_version`.
#[derive(Clone, Copy, Debug, PartialEq, Eq)]
pub struct TransactionOutputsWithProofRequest {
    pub proof_version: Version,
    pub start_version: Version,
    pub end_version: Version,
}

/// Asks for the transactions from `start_version` to `end_version`, both
/// included, with a proof against `proof_version`.
#[derive(Clone, Copy, Debug, PartialEq, Eq)]
pub struct TransactionsWithProofRequest {
    pub proof_version: Version,
    pub start_version: Version,
    pub end_version: Version,
    pub include_events: bool,
}

/// Asks for the transactions, or else the outputs, after `known_version`.
#[derive(Clone, Copy, Debug, PartialEq, Eq)]
pub struct NewTransactionsOrOutputsWithProofRequest {
    pub known_version: Version,
    pub known_epoch: Epoch,
    pub include_events: bool,
    pub max_num_output_reductions: u64,
}

/// Asks for the transactions, or else the outputs, from `start_version` to
/// `end_version`, both included, with a proof against `proof_version`.
#[derive(Clone, Copy, Debug, PartialEq, Eq)]
pub struct TransactionsOrOutputsWithProofRequest {
    pub proof_version: Version,
    pub start_version: Version,
    pub end_version: Version,
    pub include_events: bool,
    pub max_num_output_reductions: u64,
}

} // verus!
