//! What a storage server holds, and whether that lets it answer a request.

use crate::payloads::{LedgerInfoView, LedgerInfoWithSignatures};
use crate::range::CompleteDataRange;
use crate::requests::{DataRequest, StorageServiceRequest};
use crate::{Epoch, Version};
use vstd::prelude::*;

verus! {

/// How far past the synced version a known version may lie for the server
/// still to be asked for new data: the server is expected to hold that data
/// soon. Sized for 5000 transactions a second over a delay of 5 seconds.
pub const OPTIMISTIC_FETCH_VERSION_DELTA: u64 = 25000;

/// The protocol version that a server runs. Clients ask for it first, to
/// learn which requests the server understands.
#[derive(Clone, Copy, Debug, PartialEq, Eq)]
pub struct ServerProtocolVersion {
    /// The version of the storage server.
    pub protocol_version: u64,
}

/// The limits of a server: the largest chunks it returns in one response.
#[derive(Clone, Copy, Debug, PartialEq, Eq)]
pub struct ProtocolMetadata {
    /// The largest number of epochs in one chunk.
    pub max_epoch_chunk_size: u64,
    /// The largest number of states in one chunk.
    pub max_state_chunk_size: u64,
    /// The largest number of transactions in one chunk.
    pub max_transaction_chunk_size: u64,
    /// The largest number of transaction outputs in one chunk.
    pub max_transaction_output_chunk_size: u64,
}

impl ProtocolMetadata {
    /// The limits of a server whose configuration sets these chunk sizes.
    pub fn from_chunk_sizes(
        max_epoch_chunk_size: u64,
        max_state_chunk_size: u64,
        max_transaction_chunk_size: u64,
        max_transaction_output_chunk_size: u64,
    ) -> (r: Self)
        ensures
            r == (ProtocolMetadata {
                max_epoch_chunk_size,
                max_state_chunk_size,
                max_transaction_chunk_size,
                max_transaction_output_chunk_size,
            }),
    {
        ProtocolMetadata {
            max_epoch_chunk_size,
            max_state_chunk_size,
            max_transaction_chunk_size,
            max_transaction_output_chunk_size,
        }
    }

    /// Every request counts as serviceable, whatever its size.
    pub open spec fn spec_can_service(&self, request: &StorageServiceRequest) -> bool {
        true
    }

    /// Whether the limits allow the request: always. A request for more than
    /// a chunk holds is answered with a shorter chunk, not refused.
    pub fn can_service(&self, _request: &StorageServiceRequest) -> (r: bool)
        ensures
            r == self.spec_can_service(_request),
            r,
    {
        true
    }
}

/// The data that a server holds.
///
/// A range that is present is held whole, without gaps; a range that is
/// absent means that the server holds nothing of that kind.
#[derive(Debug, PartialEq, Eq)]
pub struct DataSummary {
    /// The ledger info of the highest synced version: the highest version
    /// and epoch that the server can prove.
    pub synced_ledger_info: Option<LedgerInfoWithSignatures>,
    /// The epochs whose epoch-ending ledger infos are held.
    pub epoch_ending_ledger_infos: Option<CompleteDataRange<Epoch>>,
    /// The versions whose states are held.
    pub states: Option<CompleteDataRange<Version>>,
    /// The versions whose transactions are held.
    pub transactions: Option<CompleteDataRange<Version>>,
    /// The versions whose transaction outputs are held.
    pub transaction_outputs: Option<CompleteDataRange<Version>>,
}

/// What a `DataSummary` holds, with the bytes of its ledger info as a
/// sequence.
pub ghost struct DataSummaryView {
    pub synced_ledger_info: Option<LedgerInfoView>,
    pub epoch_ending_ledger_infos: Option<CompleteDataRange<Epoch>>,
    pub states: Option<CompleteDataRange<Version>>,
    pub transactions: Option<CompleteDataRange<Version>>,
    pub transaction_outputs: Option<CompleteDataRange<Version>>,
}

impl DeepView for DataSummary {
    type V = DataSummaryView;

    open spec fn deep_view(&self) -> DataSummaryView {
        DataSummaryView {
            synced_ledger_info: self.synced_ledger_info.deep_view(),
            epoch_ending_ledger_infos: self.epoch_ending_ledger_infos,
            states: self.states,
            transactions: self.transactions,
            transaction_outputs: self.transaction_outputs,
        }
    }
}

impl Clone for DataSummary {
    fn clone(&self) -> (r: Self)
        ensures
            r.deep_view() == self.deep_view(),
    {
        DataSummary {
            synced_ledger_info: match &self.synced_ledger_info {
                Some(ledger_info) => Some(ledger_info.clone()),
                None => None,
            },
            epoch_ending_ledger_infos: self.epoch_ending_ledger_infos,
            states: self.states,
            transactions: self.transactions,
            transaction_outputs: self.transaction_outputs,
        }
    }
}

impl Default for DataSummary {
    /// The summary of a server that holds nothing.
    fn default() -> (r: Self)
        ensures
            r.synced_ledger_info is None,
            r.epoch_ending_ledger_infos is None,
            r.states is None,
            r.transactions is None,
            r.transaction_outputs is None,
    {
        DataSummary {
            synced_ledger_info: None,
            epoch_ending_ledger_infos: None,
            states: None,
            transactions: None,
            transaction_outputs: None,
        }
    }
}

/// Whether `held` is present and contains `item`.
pub open spec fn holds_item(held: Option<CompleteDataRange<u64>>, item: u64) -> bool {
    held matches Some(range) && range.lowest() <= item <= range.highest()
}

/// Whether the items from `start` to `end` form a range, and `held` is
/// present and contains all of them.
pub open spec fn holds_range(held: Option<CompleteDataRange<u64>>, start: u64, end: u64) -> bool {
    &&& start <= end
    &&& end - start + 1 <= u64::MAX
    &&& held matches Some(range) && range.lowest() <= start && end <= range.highest()
}

impl DataSummary {
    /// Whether a proof can be made against `version`: the server is synced,
    /// and to that version at least.
    pub open spec fn can_prove(&self, version: Version) -> bool {
        self.synced_ledger_info matches Some(ledger_info) && ledger_info.version >= version
    }

    /// Whether new data can be expected soon by one who knows
    /// `known_version`: the server is synced, and to a version less than
    /// `OPTIMISTIC_FETCH_VERSION_DELTA` behind it, level with it or ahead.
    pub open spec fn spec_can_service_optimistic_request(&self, known_version: Version) -> bool {
        self.synced_ledger_info matches Some(ledger_info) && ledger_info.version
            + OPTIMISTIC_FETCH_VERSION_DELTA > known_version
    }

    /// Whether the held data answers the request.
    pub open spec fn spec_can_service(&self, request: &StorageServiceRequest) -> bool {
        match request.data_request {
            DataRequest::GetServerProtocolVersion => true,
            DataRequest::GetStorageServerSummary => true,
            DataRequest::GetEpochEndingLedgerInfos(request) => holds_range(
                self.epoch_ending_ledger_infos,
                request.start_epoch,
                request.expected_end_epoch,
            ),
            DataRequest::GetNumberOfStatesAtVersion(version) => holds_item(self.states, version),
            DataRequest::GetStateValuesWithProof(request) => {
                &&& holds_item(self.states, request.version)
                &&& self.can_prove(request.version)
            },
            DataRequest::GetTransactionOutputsWithProof(request) => {
                &&& holds_range(
                    self.transaction_outputs,
                    request.start_version,
                    request.end_version,
                )
                &&& self.can_prove(request.proof_version)
            },
            DataRequest::GetTransactionsWithProof(request) => {
                &&& holds_range(self.transactions, request.start_version, request.end_version)
                &&& self.can_prove(request.proof_version)
            },
            DataRequest::GetTransactionsOrOutputsWithProof(request) => {
                &&& holds_range(self.transactions, request.start_version, request.end_version)
                &&& holds_range(
                    self.transaction_outputs,
                    request.start_version,
                    request.end_version,
                )
                &&& self.can_prove(request.proof_version)
            },
            DataRequest::GetNewTransactionOutputsWithProof(request) => {
                self.spec_can_service_optimistic_request(request.known_version)
            },
            DataRequest::GetNewTransactionsWithProof(request) => {
                self.spec_can_service_optimistic_request(request.known_version)
            },
            DataRequest::GetNewTransactionsOrOutputsWithProof(request) => {
                self.spec_can_service_optimistic_request(request.known_version)
            },
        }
    }

    /// Whether the held data answers the request. A request for a range that
    /// is no range (its bounds out of order, or its length too large to
    /// count) is not serviceable; it is no error.
    pub fn can_service(&self, request: &StorageServiceRequest) -> (r: bool)
        ensures
            r == self.spec_can_service(request),
    {
        match &request.data_request {
            DataRequest::GetServerProtocolVersion | DataRequest::GetStorageServerSummary => true,
            DataRequest::GetEpochEndingLedgerInfos(request) => {
                let desired_range = match CompleteDataRange::new(
                    request.start_epoch,
                    request.expected_end_epoch,
                ) {
                    Ok(desired_range) => desired_range,
                    Err(_) => {
                        return false;
                    },
                };
                range_is_held(&self.epoch_ending_ledger_infos, &desired_range)
            },
            DataRequest::GetNewTransactionOutputsWithProof(request) => {
                self.can_service_optimistic_request(request.known_version)
            },
            DataRequest::GetNewTransactionsWithProof(request) => {
                self.can_service_optimistic_request(request.known_version)
            },
            DataRequest::GetNumberOfStatesAtVersion(version) => item_is_held(
                &self.states,
                *version,
            ),
            DataRequest::GetStateValuesWithProof(request) => {
                let proof_version = request.version;
                let can_serve_states = item_is_held(&self.states, request.version);
                let can_create_proof = self.can_create_proof(proof_version);
                can_serve_states && can_create_proof
            },
            DataRequest::GetTransactionOutputsWithProof(request) => {
                let desired_range = match CompleteDataRange::new(
                    request.start_version,
                    request.end_version,
                ) {
                    Ok(desired_range) => desired_range,
                    Err(_) => {
                        return false;
                    },
                };
                let can_serve_outputs = range_is_held(&self.transaction_outputs, &desired_range);
                let can_create_proof = self.can_create_proof(request.proof_version);
                can_serve_outputs && can_create_proof
            },
            DataRequest::GetTransactionsWithProof(request) => {
                let desired_range = match CompleteDataRange::new(
                    request.start_version,
                    request.end_version,
                ) {
                    Ok(desired_range) => desired_range,
                    Err(_) => {
                        return false;
                    },
                };
                let can_serve_txns = range_is_held(&self.transactions, &desired_range);
                let can_create_proof = self.can_create_proof(request.proof_version);
                can_serve_txns && can_create_proof
            },
            DataRequest::GetNewTransactionsOrOutputsWithProof(request) => {
                self.can_service_optimistic_request(request.known_version)
            },
            DataRequest::GetTransactionsOrOutputsWithProof(request) => {
                let desired_range = match CompleteDataRange::new(
                    request.start_version,
                    request.end_version,
                ) {
                    Ok(desired_range) => desired_range,
                    Err(_) => {
                        return false;
                    },
                };
                let can_serve_txns = range_is_held(&self.transactions, &desired_range);
                let can_serve_outputs = range_is_held(&self.transaction_outputs, &desired_range);
                let can_create_proof = self.can_create_proof(request.proof_version);
                can_serve_txns && can_serve_outputs && can_create_proof
            },
        }
    }

    /// Whether a proof can be made against `version`.
    fn can_create_proof(&self, version: Version) -> (r: bool)
        ensures
            r == self.can_prove(version),
    {
        match &self.synced_ledger_info {
            Some(ledger_info) => ledger_info.version() >= version,
            None => false,
        }
    }

    /// Whether a request for the data after `known_version` can be serviced.
    fn can_service_optimistic_request(&self, known_version: u64) -> (r: bool)
        ensures
            r == self.spec_can_service_optimistic_request(known_version),
    {
        match &self.synced_ledger_info {
            Some(ledger_info) => {
                match ledger_info.version().checked_add(OPTIMISTIC_FETCH_VERSION_DELTA) {
                    Some(reach) => reach > known_version,
                    None => true,
                }
            },
            None => false,
        }
    }
}

impl DataSummary {
    /// A request for a range of transactions, of outputs or of either whose
    /// bounds are out of order is not serviceable, whatever is held.
    pub proof fn lemma_disordered_range_not_serviceable(
        self,
        request: StorageServiceRequest,
        start: u64,
        end: u64,
    )
        requires
            start > end,
            match request.data_request {
                DataRequest::GetEpochEndingLedgerInfos(r) => r.start_epoch == start
                    && r.expected_end_epoch == end,
                DataRequest::GetTransactionOutputsWithProof(r) => r.start_version == start
                    && r.end_version == end,
                DataRequest::GetTransactionsWithProof(r) => r.start_version == start
                    && r.end_version == end,
                DataRequest::GetTransactionsOrOutputsWithProof(r) => r.start_version == start
                    && r.end_version == end,
                _ => false,
            },
        ensures
            !self.spec_can_service(&request),
    {
    }

    /// A request that needs a proof against a version beyond the synced one
    /// is not serviceable, even where all the data it asks for is held.
    pub proof fn lemma_proof_beyond_synced_version_not_serviceable(
        self,
        request: StorageServiceRequest,
        proof_version: Version,
    )
        requires
            self.synced_ledger_info matches Some(ledger_info) ==> ledger_info.version
                < proof_version,
            match request.data_request {
                DataRequest::GetStateValuesWithProof(r) => r.version == proof_version,
                DataRequest::GetTransactionOutputsWithProof(r) => r.proof_version == proof_version,
                DataRequest::GetTransactionsWithProof(r) => r.proof_version == proof_version,
                DataRequest::GetTransactionsOrOutputsWithProof(r) => r.proof_version
                    == proof_version,
                _ => false,
            },
        ensures
            !self.spec_can_service(&request),
    {
    }

    /// A request for new data is serviceable up to, and not at, the version
    /// that lies `OPTIMISTIC_FETCH_VERSION_DELTA` past the synced one.
    pub proof fn lemma_optimistic_fetch_boundary(self, known_version: Version)
        requires
            self.synced_ledger_info is Some,
        ensures
            self.spec_can_service_optimistic_request(known_version) <==> known_version
                < self.synced_ledger_info.unwrap().version + OPTIMISTIC_FETCH_VERSION_DELTA,
    {
    }

    /// A server that holds nothing and is synced to nothing services only
    /// the requests that ask for no data.
    pub proof fn lemma_empty_summary_services_metadata_only(self, request: StorageServiceRequest)
        requires
            self.synced_ledger_info is None,
            self.epoch_ending_ledger_infos is None,
            self.states is None,
            self.transactions is None,
            self.transaction_outputs is None,
        ensures
            self.spec_can_service(&request) <==> (request.data_request
                is GetServerProtocolVersion || request.data_request is GetStorageServerSummary),
    {
    }
}

/// Whether `held` is present and contains `item`.
fn item_is_held(held: &Option<CompleteDataRange<u64>>, item: u64) -> (r: bool)
    ensures
        r == holds_item(*held, item),
{
    match held {
        Some(range) => range.contains(item),
        None => false,
    }
}

/// Whether `held` is present and a superset of `desired`.
fn range_is_held(held: &Option<CompleteDataRange<u64>>, desired: &CompleteDataRange<u64>) -> (r:
    bool)
    ensures
        r == (held matches Some(range) && range.spec_superset_of(*desired)),
{
    match held {
        Some(range) => range.superset_of(desired),
        None => false,
    }
}

/// What a server holds and what it is able to return: the first thing a
/// peer consults to learn what it can ask of the server.
#[derive(Debug, PartialEq, Eq)]
pub struct StorageServerSummary {
    pub protocol_metadata: ProtocolMetadata,
    pub data_summary: DataSummary,
}

/// What a `StorageServerSummary` holds, with the bytes of its ledger info as
/// a sequence.
pub ghost struct StorageServerSummaryView {
    pub protocol_metadata: ProtocolMetadata,
    pub data_summary: DataSummaryView,
}

impl DeepView for StorageServerSummary {
    type V = StorageServerSummaryView;

    open spec fn deep_view(&self) -> StorageServerSummaryView {
        StorageServerSummaryView {
            protocol_metadata: self.protocol_metadata,
            data_summary: self.data_summary.deep_view(),
        }
    }
}

impl Clone for StorageServerSummary {
    fn clone(&self) -> (r: Self)
        ensures
            r.deep_view() == self.deep_view(),
    {
        StorageServerSummary {
            protocol_metadata: self.protocol_metadata,
            data_summary: self.data_summary.clone(),
        }
    }
}

impl StorageServerSummary {
    /// Whether both the limits and the held data allow the request.
    pub open spec fn spec_can_service(&self, request: &StorageServiceRequest) -> bool {
        self.protocol_metadata.spec_can_service(request) && self.data_summary.spec_can_service(
            request,
        )
    }

    /// Whether the server can answer the request.
    pub fn can_service(&self, request: &StorageServiceRequest) -> (r: bool)
        ensures
            r == self.spec_can_service(request),
    {
        self.protocol_metadata.can_service(request) && self.data_summary.can_service(request)
    }
}

} // verus!
