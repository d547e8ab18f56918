use storage_service_types::error::Error;
use storage_service_types::payloads::{
    EpochChangeProof, LedgerInfoWithSignatures, StateValueChunkWithProof,
    TransactionListWithProof, TransactionOrOutputListWithProof, TransactionOutputListWithProof,
};
use storage_service_types::range::CompleteDataRange;
use storage_service_types::responses::{
    format_display, DataResponse, StorageServiceResponse, COMPRESSION_SUFFIX_LABEL,
};
use storage_service_types::summary::{
    DataSummary, ProtocolMetadata, ServerProtocolVersion, StorageServerSummary,
};

fn epoch_change_proof() -> EpochChangeProof {
    EpochChangeProof { bytes: vec![1, 2, 3] }
}

fn state_values() -> StateValueChunkWithProof {
    StateValueChunkWithProof { bytes: vec![4, 5] }
}

fn transaction_list() -> TransactionListWithProof {
    TransactionListWithProof { bytes: vec![6, 7, 8, 9] }
}

fn output_list() -> TransactionOutputListWithProof {
    TransactionOutputListWithProof { bytes: vec![10] }
}

fn ledger_info() -> LedgerInfoWithSignatures {
    LedgerInfoWithSignatures { epoch: 2, version: 77, bytes: vec![11, 12] }
}

fn server_summary() -> StorageServerSummary {
    StorageServerSummary {
        protocol_metadata: ProtocolMetadata::from_chunk_sizes(1, 2, 3, 4),
        data_summary: DataSummary {
            synced_ledger_info: Some(ledger_info()),
            epoch_ending_ledger_infos: Some(CompleteDataRange::new(0, 2).unwrap()),
            states: None,
            transactions: Some(CompleteDataRange::new(5, 77).unwrap()),
            transaction_outputs: None,
        },
    }
}

fn either() -> TransactionOrOutputListWithProof {
    (Some(transaction_list()), None)
}

fn every_payload() -> Vec<(DataResponse, &'static str)> {
    vec![
        (DataResponse::EpochEndingLedgerInfos(epoch_change_proof()), "epoch_ending_ledger_infos"),
        (
            DataResponse::NewTransactionOutputsWithProof((output_list(), ledger_info(), Some(9))),
            "new_transaction_outputs_with_proof",
        ),
        (
            DataResponse::NewTransactionsWithProof((transaction_list(), ledger_info(), None)),
            "new_transactions_with_proof",
        ),
        (DataResponse::NumberOfStatesAtVersion(42), "number_of_states_at_version"),
        (
            DataResponse::ServerProtocolVersion(ServerProtocolVersion { protocol_version: 1 }),
            "server_protocol_version",
        ),
        (DataResponse::StateValueChunkWithProof(state_values()), "state_value_chunk_with_proof"),
        (DataResponse::StorageServerSummary(server_summary()), "storage_server_summary"),
        (DataResponse::TransactionOutputsWithProof(output_list()), "transaction_outputs_with_proof"),
        (DataResponse::TransactionsWithProof(transaction_list()), "transactions_with_proof"),
        (
            DataResponse::NewTransactionsOrOutputsWithProof((either(), ledger_info(), Some(0))),
            "new_transactions_or_outputs_with_proof",
        ),
        (
            DataResponse::TransactionsOrOutputsWithProof((None, Some(output_list()))),
            "transactions_or_outputs_with_proof",
        ),
    ]
}

fn unused_encoding() -> Result<Vec<u8>, String> {
    Err(String::from("not encoded"))
}

fn unused_decoding() -> Result<DataResponse, String> {
    Err(String::from("not decoded"))
}

#[test]
fn every_payload_has_its_label() {
    let payloads = every_payload();
    assert_eq!(payloads.len(), 11);
    for (payload, label) in payloads.iter() {
        assert_eq!(payload.get_label(), *label);
    }
}

#[test]
fn the_labels_differ() {
    let payloads = every_payload();
    for (i, (one, _)) in payloads.iter().enumerate() {
        for (j, (other, _)) in payloads.iter().enumerate() {
            assert_eq!(one.get_label() == other.get_label(), i == j);
        }
    }
}

#[test]
fn the_compression_suffix() {
    assert_eq!(COMPRESSION_SUFFIX_LABEL, "_compressed");
}

#[test]
fn a_copy_of_a_payload_equals_it() {
    for (payload, _) in every_payload() {
        assert_eq!(payload.clone(), payload);
    }
}

#[test]
fn a_raw_response_holds_the_payload() {
    for (payload, label) in every_payload() {
        let response = StorageServiceResponse::new(payload.clone(), false, unused_encoding());
        let response = response.unwrap();
        assert_eq!(response, StorageServiceResponse::RawResponse(payload.clone()));
        assert!(!response.is_compressed());
        assert_eq!(response.get_label(), label);
        assert_eq!(response.get_data_response(unused_decoding()), Ok(payload));
    }
}

#[test]
fn a_raw_response_does_not_look_at_the_encoding() {
    let payload = DataResponse::NumberOfStatesAtVersion(3);
    let with_bytes = StorageServiceResponse::new(payload.clone(), false, Ok(vec![1, 2, 3]));
    assert_eq!(with_bytes, Ok(StorageServiceResponse::RawResponse(payload.clone())));
    let response = with_bytes.unwrap();
    let other = DataResponse::NumberOfStatesAtVersion(4);
    assert_eq!(response.get_data_response(Ok(other)), Ok(payload));
}

#[test]
fn a_compressed_response_holds_the_bytes_under_the_label() {
    for (payload, label) in every_payload() {
        let bytes = vec![0xAA, 0xBB, 0xCC];
        let response = StorageServiceResponse::new(payload, true, Ok(bytes.clone())).unwrap();
        let expected_label = format!("{}_compressed", label);
        assert_eq!(
            response,
            StorageServiceResponse::CompressedResponse(expected_label.clone(), bytes)
        );
        assert!(response.is_compressed());
        assert_eq!(response.get_label(), expected_label);
    }
}

#[test]
fn a_compressed_response_returns_what_was_decoded() {
    for (payload, _) in every_payload() {
        let response =
            StorageServiceResponse::new(payload.clone(), true, Ok(vec![1, 2, 3])).unwrap();
        assert_eq!(response.get_data_response(Ok(payload.clone())), Ok(payload.clone()));
        assert_eq!(response.get_data_response(Ok(payload.clone())), Ok(payload));
    }
}

#[test]
fn a_payload_comes_out_as_it_went_in() {
    for perform_compression in [false, true] {
        for (payload, _) in every_payload() {
            let compressed = Ok(vec![9, 9, 9]);
            let response =
                StorageServiceResponse::new(payload.clone(), perform_compression, compressed);
            let decoded = Ok(payload.clone());
            assert_eq!(response.unwrap().get_data_response(decoded), Ok(payload));
        }
    }
}

#[test]
fn a_failed_compression_is_an_unexpected_error() {
    let payload = DataResponse::TransactionsWithProof(transaction_list());
    let failure = Err(String::from("compressed size greater than max bytes limit"));
    assert_eq!(
        StorageServiceResponse::new(payload, true, failure),
        Err(Error::UnexpectedErrorEncountered(String::from(
            "compressed size greater than max bytes limit"
        )))
    );
}

#[test]
fn a_failed_decoding_is_an_unexpected_error() {
    let response = StorageServiceResponse::CompressedResponse(
        String::from("transactions_with_proof_compressed"),
        vec![1, 2, 3],
    );
    assert_eq!(
        response.get_data_response(Err(String::from("unexpected end of input"))),
        Err(Error::UnexpectedErrorEncountered(String::from("unexpected end of input")))
    );
    assert_eq!(response.get_label(), "transactions_with_proof_compressed");
    assert!(response.is_compressed());
}

#[test]
fn a_copy_of_a_response_equals_it() {
    let raw = StorageServiceResponse::RawResponse(DataResponse::NumberOfStatesAtVersion(3));
    assert_eq!(raw.clone(), raw);
    let compressed = StorageServiceResponse::CompressedResponse(String::from("x"), vec![1]);
    assert_eq!(compressed.clone(), compressed);
}

#[test]
fn the_text_of_a_payload_hides_its_content() {
    for (payload, label) in every_payload() {
        if label != "storage_server_summary" {
            assert_eq!(
                payload.to_text(),
                format!("Storage service response: {}, data: ...", label)
            );
        }
    }
}

#[test]
fn the_text_of_a_server_summary_shows_it() {
    let payload = DataResponse::StorageServerSummary(server_summary());
    let text = payload.to_text();
    assert_eq!(
        text,
        format!(
            "Storage service response: storage_server_summary, data: {:?}",
            server_summary()
        )
    );
    assert!(text.contains("max_transaction_chunk_size: 3"));
}

#[test]
fn format_display_joins_label_and_data() {
    assert_eq!(format_display("a", "b"), "Storage service response: a, data: b");
    assert_eq!(format_display("", ""), "Storage service response: , data: ");
}

#[test]
fn the_messages_of_the_errors() {
    assert_eq!(Error::DegenerateRangeError.message(), "Data range cannot be degenerate!");
    assert_eq!(
        Error::UnexpectedErrorEncountered(String::from("cause")).message(),
        "Unexpected error encountered: cause"
    );
    assert_eq!(
        Error::UnexpectedResponseError(String::from("expected a, found b")).message(),
        "Unexpected response error: expected a, found b"
    );
    assert_eq!(
        Error::UnexpectedErrorEncountered(String::new()).message(),
        "Unexpected error encountered: "
    );
}
