//! The proof-bearing payloads that responses carry.
//!
//! This library packs and labels payloads; it does not look inside them. Each
//! payload is held in its encoded form, as bytes. A ledger info also shows
//! the epoch and the version it stands for, which serviceability depends on.

use crate::{Epoch, Version};
use vstd::prelude::*;

verus! {

/// A chain of epoch-ending ledger infos, encoded.
#[derive(Debug, PartialEq, Eq)]
pub struct EpochChangeProof {
    pub bytes: Vec<u8>,
}

/// A chunk of state values with the proof of its place in the state, encoded.
#[derive(Debug, PartialEq, Eq)]
pub struct StateValueChunkWithProof {
    pub bytes: Vec<u8>,
}

/// A list of transactions with its proof, encoded.
#[derive(Debug, PartialEq, Eq)]
pub struct TransactionListWithProof {
    pub bytes: Vec<u8>,
}

/// A list of transaction outputs with its proof, encoded.
#[derive(Debug, PartialEq, Eq)]
pub struct TransactionOutputListWithProof {
    pub bytes: Vec<u8>,
}

/// A ledger info with the signatures that vouch for it.
#[derive(Debug, PartialEq, Eq)]
pub struct LedgerInfoWithSignatures {
    /// The epoch of the ledger info.
    pub epoch: Epoch,
    /// The version of the latest transaction that the ledger info covers.
    pub version: Version,
    /// The ledger info and its signatures, encoded.
    pub bytes: Vec<u8>,
}

/// What a `LedgerInfoWithSignatures` holds, with its bytes as a sequence.
pub ghost struct LedgerInfoView {
    pub epoch: Epoch,
    pub version: Version,
    pub bytes: Seq<u8>,
}

/// Transactions, outputs, both or neither.
pub type TransactionOrOutputListWithProof = (
    Option<TransactionListWithProof>,
    Option<TransactionOutputListWithProof>,
);

impl DeepView for EpochChangeProof {
    type V = Seq<u8>;

    open spec fn deep_view(&self) -> Seq<u8> {
        self.bytes@
    }
}

impl DeepView for StateValueChunkWithProof {
    type V = Seq<u8>;

    open spec fn deep_view(&self) -> Seq<u8> {
        self.bytes@
    }
}

impl DeepView for TransactionListWithProof {
    type V = Seq<u8>;

    open spec fn deep_view(&self) -> Seq<u8> {
        self.bytes@
    }
}

impl DeepView for TransactionOutputListWithProof {
    type V = Seq<u8>;

    open spec fn deep_view(&self) -> Seq<u8> {
        self.bytes@
    }
}

impl DeepView for LedgerInfoWithSignatures {
    type V = LedgerInfoView;

    open spec fn deep_view(&self) -> LedgerInfoView {
        LedgerInfoView { epoch: self.epoch, version: self.version, bytes: self.bytes@ }
    }
}

impl Clone for EpochChangeProof {
    fn clone(&self) -> (r: Self)
        ensures
            r.deep_view() == self.deep_view(),
    {
        EpochChangeProof { bytes: self.bytes.clone() }
    }
}

impl Clone for StateValueChunkWithProof {
    fn clone(&self) -> (r: Self)
        ensures
            r.deep_view() == self.deep_view(),
    {
        StateValueChunkWithProof { bytes: self.bytes.clone() }
    }
}

impl Clone for TransactionListWithProof {
    fn clone(&self) -> (r: Self)
        ensures
            r.deep_view() == self.deep_view(),
    {
        TransactionListWithProof { bytes: self.bytes.clone() }
    }
}

impl Clone for TransactionOutputListWithProof {
    fn clone(&self) -> (r: Self)
        ensures
            r.deep_view() == self.deep_view(),
    {
        TransactionOutputListWithProof { bytes: self.bytes.clone() }
    }
}

impl Clone for LedgerInfoWithSignatures {
    fn clone(&self) -> (r: Self)
        ensures
            r.deep_view() == self.deep_view(),
    {
        LedgerInfoWithSignatures {
            epoch: self.epoch,
            version: self.version,
            bytes: self.bytes.clone(),
        }
    }
}

impl LedgerInfoWithSignatures {
    /// The version of the latest transaction that the ledger info covers.
    pub fn version(&self) -> (r: Version)
        ensures
            r == self.version,
    {
        self.version
    }

    /// The epoch of the ledger info.
    pub fn epoch(&self) -> (r: Epoch)
        ensures
            r == self.epoch,
    {
        self.epoch
    }
}

} // verus!
