//! The payloads of a response, and the envelope that carries one.

use crate::error::{Error, ErrorView};
use crate::payloads::{
    EpochChangeProof, LedgerInfoView, LedgerInfoWithSignatures, StateValueChunkWithProof,
    TransactionListWithProof, TransactionOrOutputListWithProof, TransactionOutputListWithProof,
};
use crate::summary::{ServerProtocolVersion, StorageServerSummary, StorageServerSummaryView};
use vstd::prelude::*;
use vstd::string::StringExecFns;

verus! {

/// What is appended to the label of a payload to label its compressed form.
pub const COMPRESSION_SUFFIX_LABEL: &'static str = "_compressed";

/// The payload of a response.
#[derive(Debug, PartialEq, Eq)]
pub enum DataResponse {
    EpochEndingLedgerInfos(EpochChangeProof),
    NewTransactionOutputsWithProof(
        (TransactionOutputListWithProof, LedgerInfoWithSignatures, Option<u64>),
    ),
    NewTransactionsWithProof((TransactionListWithProof, LedgerInfoWithSignatures, Option<u64>)),
    NumberOfStatesAtVersion(u64),
    ServerProtocolVersion(ServerProtocolVersion),
    StateValueChunkWithProof(StateValueChunkWithProof),
    StorageServerSummary(StorageServerSummary),
    TransactionOutputsWithProof(TransactionOutputListWithProof),
    TransactionsWithProof(TransactionListWithProof),
    NewTransactionsOrOutputsWithProof(
        (TransactionOrOutputListWithProof, LedgerInfoWithSignatures, Option<u64>),
    ),
    TransactionsOrOutputsWithProof(TransactionOrOutputListWithProof),
}

/// A `DataResponse`, with the bytes of its payloads as sequences.
pub ghost enum DataResponseView {
    EpochEndingLedgerInfos(Seq<u8>),
    NewTransactionOutputsWithProof((Seq<u8>, LedgerInfoView, Option<u64>)),
    NewTransactionsWithProof((Seq<u8>, LedgerInfoView, Option<u64>)),
    NumberOfStatesAtVersion(u64),
    ServerProtocolVersion(ServerProtocolVersion),
    StateValueChunkWithProof(Seq<u8>),
    StorageServerSummary(StorageServerSummaryView),
    TransactionOutputsWithProof(Seq<u8>),
    TransactionsWithProof(Seq<u8>),
    NewTransactionsOrOutputsWithProof(
        ((Option<Seq<u8>>, Option<Seq<u8>>), LedgerInfoView, Option<u64>),
    ),
    TransactionsOrOutputsWithProof((Option<Seq<u8>>, Option<Seq<u8>>)),
}

impl DeepView for DataResponse {
    type V = DataResponseView;

    open spec fn deep_view(&self) -> DataResponseView {
        match self {
            DataResponse::EpochEndingLedgerInfos(inner) => DataResponseView::EpochEndingLedgerInfos(
                inner.deep_view(),
            ),
            DataResponse::NewTransactionOutputsWithProof(inner) => {
                DataResponseView::NewTransactionOutputsWithProof(inner.deep_view())
            },
            DataResponse::NewTransactionsWithProof(inner) => {
                DataResponseView::NewTransactionsWithProof(inner.deep_view())
            },
            DataResponse::NumberOfStatesAtVersion(inner) => {
                DataResponseView::NumberOfStatesAtVersion(*inner)
            },
            DataResponse::ServerProtocolVersion(inner) => DataResponseView::ServerProtocolVersion(
                *inner,
            ),
            DataResponse::StateValueChunkWithProof(inner) => {
                DataResponseView::StateValueChunkWithProof(inner.deep_view())
            },
            DataResponse::StorageServerSummary(inner) => DataResponseView::StorageServerSummary(
                inner.deep_view(),
            ),
            DataResponse::TransactionOutputsWithProof(inner) => {
                DataResponseView::TransactionOutputsWithProof(inner.deep_view())
            },
            DataResponse::TransactionsWithProof(inner) => DataResponseView::TransactionsWithProof(
                inner.deep_view(),
            ),
            DataResponse::NewTransactionsOrOutputsWithProof(inner) => {
                DataResponseView::NewTransactionsOrOutputsWithProof(inner.deep_view())
            },
            DataResponse::TransactionsOrOutputsWithProof(inner) => {
                DataResponseView::TransactionsOrOutputsWithProof(inner.deep_view())
            },
        }
    }
}

impl DataResponseView {
    /// The label of this kind of payload.
    pub open spec fn label(self) -> Seq<char> {
        match self {
            DataResponseView::EpochEndingLedgerInfos(_) => "epoch_ending_ledger_infos"@,
            DataResponseView::NewTransactionOutputsWithProof(_) => {
                "new_transaction_outputs_with_proof"@
            },
            DataResponseView::NewTransactionsWithProof(_) => "new_transactions_with_proof"@,
            DataResponseView::NumberOfStatesAtVersion(_) => "number_of_states_at_version"@,
            DataResponseView::ServerProtocolVersion(_) => "server_protocol_version"@,
            DataResponseView::StateValueChunkWithProof(_) => "state_value_chunk_with_proof"@,
            DataResponseView::StorageServerSummary(_) => "storage_server_summary"@,
            DataResponseView::TransactionOutputsWithProof(_) => "transaction_outputs_with_proof"@,
            DataResponseView::TransactionsWithProof(_) => "transactions_with_proof"@,
            DataResponseView::NewTransactionsOrOutputsWithProof(_) => {
                "new_transactions_or_outputs_with_proof"@
            },
            DataResponseView::TransactionsOrOutputsWithProof(_) => {
                "transactions_or_outputs_with_proof"@
            },
        }
    }
}

/// A copy of transactions that may be absent.
fn clone_transactions(list: &Option<TransactionListWithProof>) -> (r: Option<
    TransactionListWithProof,
>)
    ensures
        r.deep_view() == list.deep_view(),
{
    match list {
        Some(list) => Some(list.clone()),
        None => None,
    }
}

/// A copy of transaction outputs that may be absent.
fn clone_outputs(list: &Option<TransactionOutputListWithProof>) -> (r: Option<
    TransactionOutputListWithProof,
>)
    ensures
        r.deep_view() == list.deep_view(),
{
    match list {
        Some(list) => Some(list.clone()),
        None => None,
    }
}

impl Clone for DataResponse {
    fn clone(&self) -> (r: Self)
        ensures
            r.deep_view() == self.deep_view(),
    {
        match self {
            DataResponse::EpochEndingLedgerInfos(inner) => DataResponse::EpochEndingLedgerInfos(
                inner.clone(),
            ),
            DataResponse::NewTransactionOutputsWithProof(inner) => {
                DataResponse::NewTransactionOutputsWithProof(
                    (inner.0.clone(), inner.1.clone(), inner.2),
                )
            },
            DataResponse::NewTransactionsWithProof(inner) => {
                DataResponse::NewTransactionsWithProof((inner.0.clone(), inner.1.clone(), inner.2))
            },
            DataResponse::NumberOfStatesAtVersion(inner) => DataResponse::NumberOfStatesAtVersion(
                *inner,
            ),
            DataResponse::ServerProtocolVersion(inner) => DataResponse::ServerProtocolVersion(
                *inner,
            ),
            DataResponse::StateValueChunkWithProof(inner) => {
                DataResponse::StateValueChunkWithProof(inner.clone())
            },
            DataResponse::StorageServerSummary(inner) => DataResponse::StorageServerSummary(
                inner.clone(),
            ),
            DataResponse::TransactionOutputsWithProof(inner) => {
                DataResponse::TransactionOutputsWithProof(inner.clone())
            },
            DataResponse::TransactionsWithProof(inner) => DataResponse::TransactionsWithProof(
                inner.clone(),
            ),
            DataResponse::NewTransactionsOrOutputsWithProof(inner) => {
                DataResponse::NewTransactionsOrOutputsWithProof(
                    (
                        (clone_transactions(&inner.0.0), clone_outputs(&inner.0.1)),
                        inner.1.clone(),
                        inner.2,
                    ),
                )
            },
            DataResponse::TransactionsOrOutputsWithProof(inner) => {
                DataResponse::TransactionsOrOutputsWithProof(
                    (clone_transactions(&inner.0), clone_outputs(&inner.1)),
                )
            },
        }
    }
}

impl DataResponse {
    /// The label of this kind of payload.
    pub open spec fn spec_label(&self) -> Seq<char> {
        self.deep_view().label()
    }

    /// A short name for the kind of payload, for logs and for messages.
    pub fn get_label(&self) -> (r: &'static str)
        ensures
            r@ == self.spec_label(),
    {
        match self {
            Self::EpochEndingLedgerInfos(_) => "epoch_ending_ledger_infos",
            Self::NewTransactionOutputsWithProof(_) => "new_transaction_outputs_with_proof",
            Self::NewTransactionsWithProof(_) => "new_transactions_with_proof",
            Self::NumberOfStatesAtVersion(_) => "number_of_states_at_version",
            Self::ServerProtocolVersion(_) => "server_protocol_version",
            Self::StateValueChunkWithProof(_) => "state_value_chunk_with_proof",
            Self::StorageServerSummary(_) => "storage_server_summary",
            Self::TransactionOutputsWithProof(_) => "transaction_outputs_with_proof",
            Self::TransactionsWithProof(_) => "transactions_with_proof",
            Self::NewTransactionsOrOutputsWithProof(_) => "new_transactions_or_outputs_with_proof",
            Self::TransactionsOrOutputsWithProof(_) => "transactions_or_outputs_with_proof",
        }
    }

    /// The line that describes the payload in a log: its label, and its
    /// content where it is a server summary. Other payloads are too large to
    /// be written out, and three dots stand for them.
    pub fn to_text(&self) -> (r: String)
        ensures
            match self {
                DataResponse::StorageServerSummary(_) => exists|data: Seq<char>|
                    r@ == display_text(self.spec_label(), data),
                _ => r@ == display_text(self.spec_label(), "..."@),
            },
    {
        let data = match self {
            DataResponse::StorageServerSummary(storage_summary) => summary_debug_text(
                storage_summary,
            ),
            _ => String::from_str("..."),
        };
        let text = format_display(self.get_label(), data.as_str());
        assert(text@ == display_text(self.spec_label(), data@));
        text
    }
}

/// The line that describes a payload with this label and this content.
pub open spec fn display_text(label: Seq<char>, data: Seq<char>) -> Seq<char> {
    "Storage service response: "@ + label + ", data: "@ + data
}

/// Writes the line that describes a payload with this label and this
/// content.
pub fn format_display(label: &str, data: &str) -> (r: String)
    ensures
        r@ == display_text(label@, data@),
{
    String::from_str("Storage service response: ").concat(label).concat(", data: ").concat(data)
}

/// `format!` of std with `{:?}` on a server summary: the text that the
/// `Debug` of the summary writes. Nothing is claimed of that text.
#[verifier::external_body]
fn summary_debug_text(summary: &StorageServerSummary) -> String {
    format!("{:?}", summary)
}

/// A response of the storage service: a payload as it is, or the compressed
/// encoding of a payload under a label that tells what was compressed.
#[derive(Debug, PartialEq, Eq)]
pub enum StorageServiceResponse {
    /// The label and the compressed bytes. The label is kept beside the
    /// bytes so that it can be read without expanding them.
    CompressedResponse(String, Vec<u8>),
    /// The payload itself.
    RawResponse(DataResponse),
}

/// A `StorageServiceResponse`, with its text and bytes as sequences.
pub ghost enum StorageServiceResponseView {
    CompressedResponse(Seq<char>, Seq<u8>),
    RawResponse(DataResponseView),
}

impl DeepView for StorageServiceResponse {
    type V = StorageServiceResponseView;

    open spec fn deep_view(&self) -> StorageServiceResponseView {
        match self {
            StorageServiceResponse::CompressedResponse(label, bytes) => {
                StorageServiceResponseView::CompressedResponse(label@, bytes@)
            },
            StorageServiceResponse::RawResponse(data_response) => {
                StorageServiceResponseView::RawResponse(data_response.deep_view())
            },
        }
    }
}

impl Clone for StorageServiceResponse {
    fn clone(&self) -> (r: Self)
        ensures
            r.deep_view() == self.deep_view(),
    {
        match self {
            StorageServiceResponse::CompressedResponse(label, bytes) => {
                StorageServiceResponse::CompressedResponse(label.clone(), bytes.clone())
            },
            StorageServiceResponse::RawResponse(data_response) => {
                StorageServiceResponse::RawResponse(data_response.clone())
            },
        }
    }
}

/// What a codec made of a payload: the compressed encoding, or the text of
/// the cause for which there is none.
pub open spec fn encoding_view(outcome: Result<Vec<u8>, String>) -> Result<Seq<u8>, Seq<char>> {
    match outcome {
        Ok(bytes) => Ok(bytes@),
        Err(detail) => Err(detail@),
    }
}

/// What a codec made of compressed bytes: the payload, or the text of the
/// cause for which there is none.
pub open spec fn decoding_view(outcome: Result<DataResponse, String>) -> Result<
    DataResponseView,
    Seq<char>,
> {
    match outcome {
        Ok(data_response) => Ok(data_response.deep_view()),
        Err(detail) => Err(detail@),
    }
}

/// A result of this library, with text and bytes as sequences.
pub open spec fn result_view<T: DeepView>(result: Result<T, Error>) -> Result<T::V, ErrorView> {
    match result {
        Ok(value) => Ok(value.deep_view()),
        Err(error) => Err(error.deep_view()),
    }
}

impl StorageServiceResponseView {
    /// The response that carries `payload`. Without compression it holds the
    /// payload itself. With compression it holds what the codec made of the
    /// payload, under the payload's label with the compression suffix; where
    /// the codec failed there is no response, and the error carries the
    /// cause.
    pub open spec fn spec_new(
        payload: DataResponseView,
        perform_compression: bool,
        compressed: Result<Seq<u8>, Seq<char>>,
    ) -> Result<StorageServiceResponseView, ErrorView> {
        if perform_compression {
            match compressed {
                Ok(bytes) => Ok(
                    StorageServiceResponseView::CompressedResponse(
                        payload.label() + COMPRESSION_SUFFIX_LABEL@,
                        bytes,
                    ),
                ),
                Err(detail) => Err(ErrorView::UnexpectedErrorEncountered(detail)),
            }
        } else {
            Ok(StorageServiceResponseView::RawResponse(payload))
        }
    }

    /// The payload of the response. A raw response holds it. For a compressed
    /// response it is what the codec made of the bytes; where the codec
    /// failed there is no payload, and the error carries the cause.
    pub open spec fn spec_get_data_response(
        self,
        decoded: Result<DataResponseView, Seq<char>>,
    ) -> Result<DataResponseView, ErrorView> {
        match self {
            StorageServiceResponseView::RawResponse(payload) => Ok(payload),
            StorageServiceResponseView::CompressedResponse(_, _) => match decoded {
                Ok(payload) => Ok(payload),
                Err(detail) => Err(ErrorView::UnexpectedErrorEncountered(detail)),
            },
        }
    }

    /// The label of the response: the one it holds where it is compressed,
    /// else the label of its payload.
    pub open spec fn label(self) -> Seq<char> {
        match self {
            StorageServiceResponseView::CompressedResponse(label, _) => label,
            StorageServiceResponseView::RawResponse(payload) => payload.label(),
        }
    }
}

impl StorageServiceResponse {
    /// Wraps a payload in a response.
    ///
    /// Where `perform_compression` is false the response holds the payload
    /// itself, and `compressed` is not looked at. Where it is true,
    /// `compressed` is what encoding and compressing `data_response` under
    /// the message size limit gave: the response holds those bytes under the
    /// payload's label with the compression suffix, or, where the codec
    /// failed, there is no response and the error carries the cause.
    pub fn new(
        data_response: DataResponse,
        perform_compression: bool,
        compressed: Result<Vec<u8>, String>,
    ) -> (r: Result<Self, Error>)
        ensures
            result_view(r) == StorageServiceResponseView::spec_new(
                data_response.deep_view(),
                perform_compression,
                encoding_view(compressed),
            ),
            !perform_compression ==> r == Ok::<Self, Error>(
                StorageServiceResponse::RawResponse(data_response),
            ),
    {
        if perform_compression {
            match compressed {
                Ok(compressed_data) => {
                    let label = String::from_str(data_response.get_label()).concat(
                        COMPRESSION_SUFFIX_LABEL,
                    );
                    Ok(StorageServiceResponse::CompressedResponse(label, compressed_data))
                },
                Err(detail) => Err(Error::UnexpectedErrorEncountered(detail)),
            }
        } else {
            Ok(StorageServiceResponse::RawResponse(data_response))
        }
    }

    /// The payload, whether the response is compressed or not.
    ///
    /// A raw response returns a copy of the payload it holds, and `decoded`
    /// is not looked at. For a compressed response, `decoded` is what
    /// expanding and decoding its bytes under the message size limit gave:
    /// the payload, or, where the codec failed, the cause, which the error
    /// then carries.
    pub fn get_data_response(&self, decoded: Result<DataResponse, String>) -> (r: Result<
        DataResponse,
        Error,
    >)
        ensures
            result_view(r) == self.deep_view().spec_get_data_response(decoding_view(decoded)),
            self is CompressedResponse ==> match decoded {
                Ok(data_response) => r == Ok::<DataResponse, Error>(data_response),
                Err(detail) => r == Err::<DataResponse, Error>(
                    Error::UnexpectedErrorEncountered(detail),
                ),
            },
    {
        match self {
            StorageServiceResponse::CompressedResponse(_, _) => match decoded {
                Ok(data_response) => Ok(data_response),
                Err(detail) => Err(Error::UnexpectedErrorEncountered(detail)),
            },
            StorageServiceResponse::RawResponse(data_response) => Ok(data_response.clone()),
        }
    }

    /// The label of the response. A compressed response returns the label it
    /// holds, without expanding anything; a raw one returns the label of its
    /// payload.
    pub fn get_label(&self) -> (r: String)
        ensures
            r@ == self.deep_view().label(),
    {
        match self {
            StorageServiceResponse::CompressedResponse(label, _) => label.clone(),
            StorageServiceResponse::RawResponse(data_response) => String::from_str(
                data_response.get_label(),
            ),
        }
    }

    /// Whether the response holds compressed bytes.
    pub fn is_compressed(&self) -> (r: bool)
        ensures
            r == (self is CompressedResponse),
    {
        match self {
            StorageServiceResponse::CompressedResponse(_, _) => true,
            StorageServiceResponse::RawResponse(_) => false,
        }
    }
}

impl StorageServiceResponse {
    /// Takes the payload out of the response and then the payload of type
    /// `T` out of that: `T::try_from` on what `get_data_response` returns,
    /// or the error of `get_data_response`.
    pub fn extract<T: TryFrom<DataResponse, Error = Error>>(
        &self,
        decoded: Result<DataResponse, String>,
    ) -> (r: Result<T, Error>)
        ensures
            match self.deep_view().spec_get_data_response(decoding_view(decoded)) {
                Ok(payload) => exists|data_response: DataResponse|
                    data_response.deep_view() == payload && call_ensures(
                        T::try_from,
                        (data_response,),
                        r,
                    ),
                Err(error) => r matches Err(e) && e.deep_view() == error,
            },
    {
        match self.get_data_response(decoded) {
            Ok(data_response) => T::try_from(data_response),
            Err(error) => Err(error),
        }
    }
}

impl StorageServiceResponseView {
    /// A payload that goes into a response comes out of it again: wrapping
    /// succeeds and the response returns the payload, raw or compressed,
    /// where the codec compresses and gives back what it was given.
    pub proof fn lemma_payload_round_trip(
        payload: DataResponseView,
        perform_compression: bool,
        compressed: Result<Seq<u8>, Seq<char>>,
        decoded: Result<DataResponseView, Seq<char>>,
    )
        requires
            perform_compression ==> compressed is Ok && decoded == Ok::<
                DataResponseView,
                Seq<char>,
            >(payload),
        ensures
            Self::spec_new(payload, perform_compression, compressed) matches Ok(response)
                && response.spec_get_data_response(decoded) == Ok::<DataResponseView, ErrorView>(
                payload,
            ),
    {
    }

    /// A response is labelled after its payload: a raw response bears the
    /// label of the payload, and a compressed one that label with the
    /// compression suffix.
    pub proof fn lemma_label_of_new(
        payload: DataResponseView,
        perform_compression: bool,
        compressed: Result<Seq<u8>, Seq<char>>,
    )
        requires
            perform_compression ==> compressed is Ok,
        ensures
            Self::spec_new(payload, perform_compression, compressed) matches Ok(response)
                && response.label() == (if perform_compression {
                payload.label() + COMPRESSION_SUFFIX_LABEL@
            } else {
                payload.label()
            }),
    {
    }

    /// A codec that fails leaves no response and no payload: the error is
    /// `UnexpectedErrorEncountered` and carries the cause as the codec gave
    /// it.
    pub proof fn lemma_codec_failure_is_reported(
        payload: DataResponseView,
        label: Seq<char>,
        bytes: Seq<u8>,
        detail: Seq<char>,
    )
        ensures
            Self::spec_new(payload, true, Err(detail)) == Err::<
                StorageServiceResponseView,
                ErrorView,
            >(ErrorView::UnexpectedErrorEncountered(detail)),
            StorageServiceResponseView::CompressedResponse(label, bytes).spec_get_data_response(
                Err(detail),
            ) == Err::<DataResponseView, ErrorView>(ErrorView::UnexpectedErrorEncountered(detail)),
    {
    }
}

} // verus!
