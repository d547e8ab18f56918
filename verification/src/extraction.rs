//! Taking the payload of one kind out of a response payload.
//!
//! Each kind of payload can be asked for by its type. A payload of another
//! kind is refused with an error that names the kind that was expected and
//! the kind that was found; it is never handed out as something it is not.
//!
//! The text of such an error is a string made on the spot, which no spec
//! function can name. So the contract of each `try_from` states its result
//! itself, and `try_from_spec` is left without meaning.

use crate::error::Error;
use crate::payloads::{
    EpochChangeProof, LedgerInfoWithSignatures, StateValueChunkWithProof,
    TransactionListWithProof, TransactionOrOutputListWithProof, TransactionOutputListWithProof,
};
use crate::responses::DataResponse;
use crate::summary::{ServerProtocolVersion, StorageServerSummary};
use vstd::prelude::*;
use vstd::std_specs::convert::TryFromSpecImpl;
use vstd::string::StringExecFns;

verus! {

/// The text that tells which kind of payload was expected and which was
/// found.
pub open spec fn mismatch_text(expected: Seq<char>, found: Seq<char>) -> Seq<char> {
    "expected "@ + expected + ", found "@ + found
}

/// Whether `result` refuses `found` because a payload labelled `expected`
/// was asked for.
pub open spec fn is_mismatch<T>(result: Result<T, Error>, expected: Seq<char>, found: Seq<char>)
    -> bool {
    result matches Err(Error::UnexpectedResponseError(text)) && text@ == mismatch_text(
        expected,
        found,
    )
}

/// The error for a payload of another kind than the one labelled `expected`.
pub fn unexpected_response(expected: &str, found: &DataResponse) -> (r: Error)
    ensures
        r matches Error::UnexpectedResponseError(text) && text@ == mismatch_text(
            expected@,
            found.spec_label(),
        ),
{
    let text = String::from_str("expected ").concat(expected).concat(", found ").concat(
        found.get_label(),
    );
    Error::UnexpectedResponseError(text)
}

/// Takes a chunk of state values out of a payload.
impl TryFrom<DataResponse> for StateValueChunkWithProof {
    type Error = Error;

    fn try_from(data_response: DataResponse) -> (r: Result<Self, Error>)
        ensures
            match data_response {
                DataResponse::StateValueChunkWithProof(inner) => r == Ok::<Self, Error>(inner),
                _ => is_mismatch(r, "state_value_chunk_with_proof"@, data_response.spec_label()),
            },
    {
        match data_response {
            DataResponse::StateValueChunkWithProof(inner) => Ok(inner),
            _ => Err(unexpected_response("state_value_chunk_with_proof", &data_response)),
        }
    }
}

impl TryFromSpecImpl<DataResponse> for StateValueChunkWithProof {
    open spec fn obeys_try_from_spec() -> bool {
        false
    }

    open spec fn try_from_spec(data_response: DataResponse) -> Result<Self, Error> {
        arbitrary()
    }
}

/// Takes epoch-ending ledger infos out of a payload.
impl TryFrom<DataResponse> for EpochChangeProof {
    type Error = Error;

    fn try_from(data_response: DataResponse) -> (r: Result<Self, Error>)
        ensures
            match data_response {
                DataResponse::EpochEndingLedgerInfos(inner) => r == Ok::<Self, Error>(inner),
                _ => is_mismatch(r, "epoch_ending_ledger_infos"@, data_response.spec_label()),
            },
    {
        match data_response {
            DataResponse::EpochEndingLedgerInfos(inner) => Ok(inner),
            _ => Err(unexpected_response("epoch_ending_ledger_infos", &data_response)),
        }
    }
}

impl TryFromSpecImpl<DataResponse> for EpochChangeProof {
    open spec fn obeys_try_from_spec() -> bool {
        false
    }

    open spec fn try_from_spec(data_response: DataResponse) -> Result<Self, Error> {
        arbitrary()
    }
}

/// Takes new transaction outputs out of a payload.
impl TryFrom<DataResponse> for (TransactionOutputListWithProof, LedgerInfoWithSignatures, Option<u64>) {
    type Error = Error;

    fn try_from(data_response: DataResponse) -> (r: Result<Self, Error>)
        ensures
            match data_response {
                DataResponse::NewTransactionOutputsWithProof(inner) => r == Ok::<Self, Error>(inner),
                _ => is_mismatch(r, "new_transaction_outputs_with_proof"@, data_response.spec_label()),
            },
    {
        match data_response {
            DataResponse::NewTransactionOutputsWithProof(inner) => Ok(inner),
            _ => Err(unexpected_response("new_transaction_outputs_with_proof", &data_response)),
        }
    }
}

impl TryFromSpecImpl<DataResponse> for (TransactionOutputListWithProof, LedgerInfoWithSignatures, Option<u64>) {
    open spec fn obeys_try_from_spec() -> bool {
        false
    }

    open spec fn try_from_spec(data_response: DataResponse) -> Result<Self, Error> {
        arbitrary()
    }
}

/// Takes new transactions out of a payload.
impl TryFrom<DataResponse> for (TransactionListWithProof, LedgerInfoWithSignatures, Option<u64>) {
    type Error = Error;

    fn try_from(data_response: DataResponse) -> (r: Result<Self, Error>)
        ensures
            match data_response {
                DataResponse::NewTransactionsWithProof(inner) => r == Ok::<Self, Error>(inner),
                _ => is_mismatch(r, "new_transactions_with_proof"@, data_response.spec_label()),
            },
    {
        match data_response {
            DataResponse::NewTransactionsWithProof(inner) => Ok(inner),
            _ => Err(unexpected_response("new_transactions_with_proof", &data_response)),
        }
    }
}

impl TryFromSpecImpl<DataResponse> for (TransactionListWithProof, LedgerInfoWithSignatures, Option<u64>) {
    open spec fn obeys_try_from_spec() -> bool {
        false
    }

    open spec fn try_from_spec(data_response: DataResponse) -> Result<Self, Error> {
        arbitrary()
    }
}

/// Takes a number of states out of a payload.
impl TryFrom<DataResponse> for u64 {
    type Error = Error;

    fn try_from(data_response: DataResponse) -> (r: Result<Self, Error>)
        ensures
            match data_response {
                DataResponse::NumberOfStatesAtVersion(inner) => r == Ok::<Self, Error>(inner),
                _ => is_mismatch(r, "number_of_states_at_version"@, data_response.spec_label()),
            },
    {
        match data_response {
            DataResponse::NumberOfStatesAtVersion(inner) => Ok(inner),
            _ => Err(unexpected_response("number_of_states_at_version", &data_response)),
        }
    }
}

impl TryFromSpecImpl<DataResponse> for u64 {
    open spec fn obeys_try_from_spec() -> bool {
        false
    }

    open spec fn try_from_spec(data_response: DataResponse) -> Result<Self, Error> {
        arbitrary()
    }
}

/// Takes a protocol version out of a payload.
impl TryFrom<DataResponse> for ServerProtocolVersion {
    type Error = Error;

    fn try_from(data_response: DataResponse) -> (r: Result<Self, Error>)
        ensures
            match data_response {
                DataResponse::ServerProtocolVersion(inner) => r == Ok::<Self, Error>(inner),
                _ => is_mismatch(r, "server_protocol_version"@, data_response.spec_label()),
            },
    {
        match data_response {
            DataResponse::ServerProtocolVersion(inner) => Ok(inner),
            _ => Err(unexpected_response("server_protocol_version", &data_response)),
        }
    }
}

impl TryFromSpecImpl<DataResponse> for ServerProtocolVersion {
    open spec fn obeys_try_from_spec() -> bool {
        false
    }

    open spec fn try_from_spec(data_response: DataResponse) -> Result<Self, Error> {
        arbitrary()
    }
}

/// Takes a server summary out of a payload.
impl TryFrom<DataResponse> for StorageServerSummary {
    type Error = Error;

    fn try_from(data_response: DataResponse) -> (r: Result<Self, Error>)
        ensures
            match data_response {
                DataResponse::StorageServerSummary(inner) => r == Ok::<Self, Error>(inner),
                _ => is_mismatch(r, "storage_server_summary"@, data_response.spec_label()),
            },
    {
        match data_response {
            DataResponse::StorageServerSummary(inner) => Ok(inner),
            _ => Err(unexpected_response("storage_server_summary", &data_response)),
        }
    }
}

impl TryFromSpecImpl<DataResponse> for StorageServerSummary {
    open spec fn obeys_try_from_spec() -> bool {
        false
    }

    open spec fn try_from_spec(data_response: DataResponse) -> Result<Self, Error> {
        arbitrary()
    }
}

/// Takes transaction outputs out of a payload.
impl TryFrom<DataResponse> for TransactionOutputListWithProof {
    type Error = Error;

    fn try_from(data_response: DataResponse) -> (r: Result<Self, Error>)
        ensures
            match data_response {
                DataResponse::TransactionOutputsWithProof(inner) => r == Ok::<Self, Error>(inner),
                _ => is_mismatch(r, "transaction_outputs_with_proof"@, data_response.spec_label()),
            },
    {
        match data_response {
            DataResponse::TransactionOutputsWithProof(inner) => Ok(inner),
            _ => Err(unexpected_response("transaction_outputs_with_proof", &data_response)),
        }
    }
}

impl TryFromSpecImpl<DataResponse> for TransactionOutputListWithProof {
    open spec fn obeys_try_from_spec() -> bool {
        false
    }

    open spec fn try_from_spec(data_response: DataResponse) -> Result<Self, Error> {
        arbitrary()
    }
}

/// Takes transactions out of a payload.
impl TryFrom<DataResponse> for TransactionListWithProof {
    type Error = Error;

    fn try_from(data_response: DataResponse) -> (r: Result<Self, Error>)
        ensures
            match data_response {
                DataResponse::TransactionsWithProof(inner) => r == Ok::<Self, Error>(inner),
                _ => is_mismatch(r, "transactions_with_proof"@, data_response.spec_label()),
            },
    {
        match data_response {
            DataResponse::TransactionsWithProof(inner) => Ok(inner),
            _ => Err(unexpected_response("transactions_with_proof", &data_response)),
        }
    }
}

impl TryFromSpecImpl<DataResponse> for TransactionListWithProof {
    open spec fn obeys_try_from_spec() -> bool {
        false
    }

    open spec fn try_from_spec(data_response: DataResponse) -> Result<Self, Error> {
        arbitrary()
    }
}

/// Takes new transactions or outputs out of a payload.
impl TryFrom<DataResponse> for (TransactionOrOutputListWithProof, LedgerInfoWithSignatures, Option<u64>) {
    type Error = Error;

    fn try_from(data_response: DataResponse) -> (r: Result<Self, Error>)
        ensures
            match data_response {
                DataResponse::NewTransactionsOrOutputsWithProof(inner) => r == Ok::<Self, Error>(inner),
                _ => is_mismatch(r, "new_transactions_or_outputs_with_proof"@, data_response.spec_label()),
            },
    {
        match data_response {
            DataResponse::NewTransactionsOrOutputsWithProof(inner) => Ok(inner),
            _ => Err(unexpected_response("new_transactions_or_outputs_with_proof", &data_response)),
        }
    }
}

impl TryFromSpecImpl<DataResponse> for (TransactionOrOutputListWithProof, LedgerInfoWithSignatures, Option<u64>) {
    open spec fn obeys_try_from_spec() -> bool {
        false
    }

    open spec fn try_from_spec(data_response: DataResponse) -> Result<Self, Error> {
        arbitrary()
    }
}

/// Takes transactions or outputs out of a payload.
impl TryFrom<DataResponse> for TransactionOrOutputListWithProof {
    type Error = Error;

    fn try_from(data_response: DataResponse) -> (r: Result<Self, Error>)
        ensures
            match data_response {
                DataResponse::TransactionsOrOutputsWithProof(inner) => r == Ok::<Self, Error>(inner),
                _ => is_mismatch(r, "transactions_or_outputs_with_proof"@, data_response.spec_label()),
            },
    {
        match data_response {
            DataResponse::TransactionsOrOutputsWithProof(inner) => Ok(inner),
            _ => Err(unexpected_response("transactions_or_outputs_with_proof", &data_response)),
        }
    }
}

impl TryFromSpecImpl<DataResponse> for TransactionOrOutputListWithProof {
    open spec fn obeys_try_from_spec() -> bool {
        false
    }

    open spec fn try_from_spec(data_response: DataResponse) -> Result<Self, Error> {
        arbitrary()
    }
}

} // verus!
