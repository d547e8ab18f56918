use storage_service_types::payloads::LedgerInfoWithSignatures;
use storage_service_types::range::CompleteDataRange;
use storage_service_types::requests::{
    DataRequest, EpochEndingLedgerInfoRequest, NewTransactionOutputsWithProofRequest,
    NewTransactionsOrOutputsWithProofRequest, NewTransactionsWithProofRequest,
    StateValuesWithProofRequest, StorageServiceRequest, TransactionOutputsWithProofRequest,
    TransactionsOrOutputsWithProofRequest, TransactionsWithProofRequest,
};
use storage_service_types::summary::{
    DataSummary, ProtocolMetadata, StorageServerSummary, OPTIMISTIC_FETCH_VERSION_DELTA,
};

fn range(lowest: u64, highest: u64) -> Option<CompleteDataRange<u64>> {
    Some(CompleteDataRange::new(lowest, highest).unwrap())
}

fn synced_to(version: u64) -> Option<LedgerInfoWithSignatures> {
    Some(LedgerInfoWithSignatures { epoch: 3, version, bytes: vec![7, 7] })
}

fn request(data_request: DataRequest) -> StorageServiceRequest {
    StorageServiceRequest { data_request, use_compression: false }
}

fn summary(
    synced: Option<u64>,
    epochs: Option<(u64, u64)>,
    states: Option<(u64, u64)>,
    transactions: Option<(u64, u64)>,
    outputs: Option<(u64, u64)>,
) -> DataSummary {
    DataSummary {
        synced_ledger_info: synced.and_then(synced_to),
        epoch_ending_ledger_infos: epochs.and_then(|(l, h)| range(l, h)),
        states: states.and_then(|(l, h)| range(l, h)),
        transactions: transactions.and_then(|(l, h)| range(l, h)),
        transaction_outputs: outputs.and_then(|(l, h)| range(l, h)),
    }
}

fn epochs(start_epoch: u64, expected_end_epoch: u64) -> StorageServiceRequest {
    request(DataRequest::GetEpochEndingLedgerInfos(EpochEndingLedgerInfoRequest {
        start_epoch,
        expected_end_epoch,
    }))
}

fn transactions(proof_version: u64, start_version: u64, end_version: u64) -> StorageServiceRequest {
    request(DataRequest::GetTransactionsWithProof(TransactionsWithProofRequest {
        proof_version,
        start_version,
        end_version,
        include_events: true,
    }))
}

fn outputs(proof_version: u64, start_version: u64, end_version: u64) -> StorageServiceRequest {
    request(DataRequest::GetTransactionOutputsWithProof(TransactionOutputsWithProofRequest {
        proof_version,
        start_version,
        end_version,
    }))
}

fn transactions_or_outputs(
    proof_version: u64,
    start_version: u64,
    end_version: u64,
) -> StorageServiceRequest {
    request(DataRequest::GetTransactionsOrOutputsWithProof(
        TransactionsOrOutputsWithProofRequest {
            proof_version,
            start_version,
            end_version,
            include_events: false,
            max_num_output_reductions: 3,
        },
    ))
}

fn states(version: u64) -> StorageServiceRequest {
    request(DataRequest::GetStateValuesWithProof(StateValuesWithProofRequest {
        version,
        start_index: 0,
        end_index: 10,
    }))
}

fn new_transactions(known_version: u64) -> StorageServiceRequest {
    request(DataRequest::GetNewTransactionsWithProof(NewTransactionsWithProofRequest {
        known_version,
        known_epoch: 1,
        include_events: false,
    }))
}

fn new_outputs(known_version: u64) -> StorageServiceRequest {
    request(DataRequest::GetNewTransactionOutputsWithProof(
        NewTransactionOutputsWithProofRequest { known_version, known_epoch: 1 },
    ))
}

fn new_transactions_or_outputs(known_version: u64) -> StorageServiceRequest {
    request(DataRequest::GetNewTransactionsOrOutputsWithProof(
        NewTransactionsOrOutputsWithProofRequest {
            known_version,
            known_epoch: 1,
            include_events: false,
            max_num_output_reductions: 0,
        },
    ))
}

#[test]
fn the_delta_is_25000() {
    assert_eq!(OPTIMISTIC_FETCH_VERSION_DELTA, 25000);
}

#[test]
fn metadata_requests_are_always_serviceable() {
    let nothing = DataSummary::default();
    assert!(nothing.can_service(&request(DataRequest::GetServerProtocolVersion)));
    assert!(nothing.can_service(&request(DataRequest::GetStorageServerSummary)));
    let much = summary(Some(100), Some((0, 5)), Some((0, 100)), Some((0, 100)), Some((0, 100)));
    assert!(much.can_service(&request(DataRequest::GetServerProtocolVersion)));
    assert!(much.can_service(&request(DataRequest::GetStorageServerSummary)));
}

#[test]
fn the_default_summary_holds_nothing() {
    let nothing = DataSummary::default();
    assert_eq!(nothing.synced_ledger_info, None);
    assert_eq!(nothing.epoch_ending_ledger_infos, None);
    assert_eq!(nothing.states, None);
    assert_eq!(nothing.transactions, None);
    assert_eq!(nothing.transaction_outputs, None);
    assert!(!nothing.can_service(&epochs(0, 0)));
    assert!(!nothing.can_service(&request(DataRequest::GetNumberOfStatesAtVersion(0))));
    assert!(!nothing.can_service(&states(0)));
    assert!(!nothing.can_service(&transactions(0, 0, 0)));
    assert!(!nothing.can_service(&outputs(0, 0, 0)));
    assert!(!nothing.can_service(&transactions_or_outputs(0, 0, 0)));
    assert!(!nothing.can_service(&new_transactions(0)));
    assert!(!nothing.can_service(&new_outputs(0)));
    assert!(!nothing.can_service(&new_transactions_or_outputs(0)));
}

#[test]
fn epoch_ending_ledger_infos_need_the_whole_range() {
    let held = summary(None, Some((100, 200)), None, None, None);
    assert!(held.can_service(&epochs(100, 200)));
    assert!(held.can_service(&epochs(125, 175)));
    assert!(held.can_service(&epochs(150, 150)));
    assert!(!held.can_service(&epochs(99, 200)));
    assert!(!held.can_service(&epochs(100, 201)));
    assert!(!held.can_service(&epochs(0, 99)));
    assert!(!held.can_service(&epochs(201, 300)));
}

#[test]
fn a_range_that_is_no_range_is_not_serviceable() {
    let held = summary(
        Some(u64::MAX),
        Some((0, u64::MAX - 1)),
        Some((0, u64::MAX - 1)),
        Some((0, u64::MAX - 1)),
        Some((0, u64::MAX - 1)),
    );
    assert!(!held.can_service(&epochs(150, 100)));
    assert!(!held.can_service(&transactions(0, 5, 4)));
    assert!(!held.can_service(&outputs(0, 5, 4)));
    assert!(!held.can_service(&transactions_or_outputs(0, 5, 4)));
    assert!(!held.can_service(&epochs(0, u64::MAX)));
    assert!(!held.can_service(&transactions(0, 0, u64::MAX)));
    assert!(!held.can_service(&outputs(0, 0, u64::MAX)));
    assert!(!held.can_service(&transactions_or_outputs(0, 0, u64::MAX)));
    assert!(held.can_service(&epochs(4, 5)));
    assert!(held.can_service(&transactions(0, 4, 5)));
}

#[test]
fn the_number_of_states_needs_the_version() {
    let held = summary(None, None, Some((100, 300)), None, None);
    assert!(held.can_service(&request(DataRequest::GetNumberOfStatesAtVersion(100))));
    assert!(held.can_service(&request(DataRequest::GetNumberOfStatesAtVersion(200))));
    assert!(held.can_service(&request(DataRequest::GetNumberOfStatesAtVersion(300))));
    assert!(!held.can_service(&request(DataRequest::GetNumberOfStatesAtVersion(99))));
    assert!(!held.can_service(&request(DataRequest::GetNumberOfStatesAtVersion(301))));
}

#[test]
fn state_values_need_the_version_and_a_proof() {
    let held = summary(Some(250), None, Some((100, 300)), None, None);
    assert!(held.can_service(&states(100)));
    assert!(held.can_service(&states(250)));
    assert!(!held.can_service(&states(251)));
    assert!(!held.can_service(&states(300)));
    assert!(!held.can_service(&states(99)));
    let unsynced = summary(None, None, Some((100, 300)), None, None);
    assert!(!unsynced.can_service(&states(100)));
    let without_states = summary(Some(250), None, None, None, None);
    assert!(!without_states.can_service(&states(100)));
}

#[test]
fn transactions_need_the_range_and_a_proof() {
    let held = summary(Some(250), None, None, Some((100, 200)), None);
    assert!(held.can_service(&transactions(250, 100, 200)));
    assert!(held.can_service(&transactions(225, 125, 175)));
    assert!(held.can_service(&transactions(0, 150, 150)));
    assert!(!held.can_service(&transactions(251, 100, 200)));
    assert!(!held.can_service(&transactions(250, 99, 200)));
    assert!(!held.can_service(&transactions(250, 100, 201)));
    assert!(!held.can_service(&outputs(250, 100, 200)));
    let unsynced = summary(None, None, None, Some((100, 200)), None);
    assert!(!unsynced.can_service(&transactions(0, 100, 200)));
}

#[test]
fn outputs_need_the_range_and_a_proof() {
    let held = summary(Some(250), None, None, None, Some((100, 200)));
    assert!(held.can_service(&outputs(250, 100, 200)));
    assert!(held.can_service(&outputs(225, 125, 175)));
    assert!(!held.can_service(&outputs(251, 100, 200)));
    assert!(!held.can_service(&outputs(250, 99, 200)));
    assert!(!held.can_service(&outputs(250, 100, 201)));
    assert!(!held.can_service(&transactions(250, 100, 200)));
    let unsynced = summary(None, None, None, None, Some((100, 200)));
    assert!(!unsynced.can_service(&outputs(0, 100, 200)));
}

#[test]
fn transactions_or_outputs_need_both_ranges_and_a_proof() {
    let held = summary(Some(250), None, None, Some((100, 200)), Some((150, 250)));
    assert!(held.can_service(&transactions_or_outputs(250, 150, 200)));
    assert!(held.can_service(&transactions_or_outputs(200, 175, 180)));
    assert!(!held.can_service(&transactions_or_outputs(250, 100, 200)));
    assert!(!held.can_service(&transactions_or_outputs(250, 150, 250)));
    assert!(!held.can_service(&transactions_or_outputs(251, 150, 200)));
    let only_transactions = summary(Some(250), None, None, Some((100, 200)), None);
    assert!(!only_transactions.can_service(&transactions_or_outputs(250, 150, 200)));
    let only_outputs = summary(Some(250), None, None, None, Some((100, 200)));
    assert!(!only_outputs.can_service(&transactions_or_outputs(250, 150, 200)));
    let unsynced = summary(None, None, None, Some((100, 200)), Some((100, 200)));
    assert!(!unsynced.can_service(&transactions_or_outputs(0, 150, 200)));
}

#[test]
fn optimistic_fetch_is_serviceable_below_the_synced_version_plus_delta() {
    let held = summary(Some(1000), None, None, None, None);
    for known_version in [0, 999, 1000, 1001, 25998, 25999] {
        assert!(held.can_service(&new_transactions(known_version)));
        assert!(held.can_service(&new_outputs(known_version)));
        assert!(held.can_service(&new_transactions_or_outputs(known_version)));
    }
}

#[test]
fn optimistic_fetch_is_not_serviceable_at_the_synced_version_plus_delta() {
    let held = summary(Some(1000), None, None, None, None);
    for known_version in [26000, 26001, 50000, u64::MAX] {
        assert!(!held.can_service(&new_transactions(known_version)));
        assert!(!held.can_service(&new_outputs(known_version)));
        assert!(!held.can_service(&new_transactions_or_outputs(known_version)));
    }
}

#[test]
fn optimistic_fetch_near_the_end_of_the_versions() {
    let last = summary(Some(u64::MAX), None, None, None, None);
    assert!(last.can_service(&new_transactions(u64::MAX)));
    assert!(last.can_service(&new_outputs(0)));
    let near = summary(Some(u64::MAX - 25000), None, None, None, None);
    assert!(!near.can_service(&new_transactions(u64::MAX)));
    assert!(near.can_service(&new_transactions(u64::MAX - 1)));
    let nearer = summary(Some(u64::MAX - 24999), None, None, None, None);
    assert!(nearer.can_service(&new_transactions_or_outputs(u64::MAX)));
}

#[test]
fn a_proof_beyond_the_synced_version_is_not_serviceable() {
    let held = summary(Some(4000), None, None, Some((0, 5000)), None);
    assert!(!held.can_service(&transactions(4500, 0, 5000)));
    assert!(!held.can_service(&transactions(4001, 0, 5000)));
    assert!(held.can_service(&transactions(4000, 0, 5000)));
    assert!(held.can_service(&transactions(3999, 0, 5000)));
}

#[test]
fn protocol_metadata_services_every_request() {
    let metadata = ProtocolMetadata::from_chunk_sizes(1, 2, 3, 4);
    assert_eq!(metadata.max_epoch_chunk_size, 1);
    assert_eq!(metadata.max_state_chunk_size, 2);
    assert_eq!(metadata.max_transaction_chunk_size, 3);
    assert_eq!(metadata.max_transaction_output_chunk_size, 4);
    assert!(metadata.can_service(&transactions(0, 0, u64::MAX)));
    assert!(metadata.can_service(&epochs(9, 1)));
    assert!(metadata.can_service(&new_outputs(u64::MAX)));
    assert!(metadata.can_service(&request(DataRequest::GetServerProtocolVersion)));
    let none = ProtocolMetadata::from_chunk_sizes(0, 0, 0, 0);
    assert!(none.can_service(&transactions(0, 0, 1_000_000)));
}

#[test]
fn the_server_summary_follows_the_data_summary() {
    let server = StorageServerSummary {
        protocol_metadata: ProtocolMetadata::from_chunk_sizes(10, 10, 10, 10),
        data_summary: summary(Some(4000), Some((0, 3)), Some((0, 4000)), Some((0, 5000)), None),
    };
    assert!(server.can_service(&request(DataRequest::GetStorageServerSummary)));
    assert!(server.can_service(&epochs(1, 2)));
    assert!(!server.can_service(&epochs(1, 4)));
    assert!(server.can_service(&transactions(4000, 0, 5000)));
    assert!(!server.can_service(&transactions(4500, 0, 5000)));
    assert!(!server.can_service(&outputs(4000, 0, 5000)));
    assert!(server.can_service(&new_transactions(28999)));
    assert!(!server.can_service(&new_transactions(29000)));
    let copy = server.clone();
    assert_eq!(copy, server);
}
