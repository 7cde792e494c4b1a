//! Publishing an envelope to a content-addressed store: what to do with the credentials
//! that were found and with the store's answer. Nothing is retried and nothing is
//! remembered: publishing the same document twice asks the store twice.

use vstd::prelude::*;
use vstd::utf8::encode_utf8;
use crate::error::EngineError;

verus! {

/// The two keys the store asks for.
#[derive(Clone, Debug, PartialEq, Eq)]
pub struct AnchorCredentials {
    pub api_key: String,
    pub secret_key: String,
}

/// How an attempt to pin a document ended.
#[derive(Clone, Debug, PartialEq, Eq)]
pub enum PinOutcome {
    /// The store took the document and named it.
    Pinned { content_id: String },
    /// The store could not be reached.
    Unreachable { reason: String },
    /// The store answered with an error of its own.
    Rejected { reason: String },
}

/// What is said where a key is missing.
pub open spec fn missing_key_reason() -> Seq<char> {
    "anchor credentials are missing"@
}

/// Whether a key was found: it is there and it is not empty.
pub open spec fn key_found(key: Option<String>) -> bool {
    key is Some && key->Some_0@.len() > 0
}

/// The credentials, where both keys were found; else the store is unavailable. An empty
/// key counts as missing.
pub fn anchor_credentials(api_key: Option<String>, secret_key: Option<String>) -> (result: Result<
    AnchorCredentials,
    EngineError,
>)
    ensures
        key_found(api_key) && key_found(secret_key) ==> result == Ok::<
            AnchorCredentials,
            EngineError,
        >(AnchorCredentials { api_key: api_key->Some_0, secret_key: secret_key->Some_0 }),
        !(key_found(api_key) && key_found(secret_key)) ==> result is Err
            && result->Err_0 is AnchorUnavailable
            && result->Err_0->AnchorUnavailable_reason@ == missing_key_reason(),
{
    match (api_key, secret_key) {
        (Some(api_key), Some(secret_key)) => {
            if api_key.as_str().is_empty() || secret_key.as_str().is_empty() {
                Err(
                    EngineError::AnchorUnavailable {
                        reason: "anchor credentials are missing".to_string(),
                    },
                )
            } else {
                Ok(AnchorCredentials { api_key, secret_key })
            }
        },
        _ => Err(
            EngineError::AnchorUnavailable {
                reason: "anchor credentials are missing".to_string(),
            },
        ),
    }
}

/// The words with which the store's client begins its message where a request could not
/// be sent at all.
pub open spec fn send_failure_words() -> Seq<char> {
    "error sending request"@
}

/// Whether a failure message reports that the request could not be sent: its bytes begin
/// with those of the words above.
pub open spec fn reports_send_failure(message: Seq<char>) -> bool {
    encode_utf8(send_failure_words()).is_prefix_of(encode_utf8(message))
}

/// Whether a failure message of the store's client reports that the request could not be
/// sent.
pub fn is_send_failure(message: &str) -> (sent_nothing: bool)
    ensures
        sent_nothing == reports_send_failure(message@),
{
    let words = "error sending request".as_bytes();
    let bytes = message.as_bytes();
    if bytes.len() < words.len() {
        return false;
    }
    let mut i: usize = 0;
    while i < words.len()
        invariant
            i <= words@.len() <= bytes@.len(),
            words@ == encode_utf8(send_failure_words()),
            bytes@ == encode_utf8(message@),
            forall|j: int| 0 <= j < i ==> words@[j] == bytes@[j],
        decreases words@.len() - i,
    {
        if words[i] != bytes[i] {
            assert(words@[i as int] != bytes@.subrange(0, words@.len() as int)[i as int]);
            return false;
        }
        i += 1;
    }
    assert(words@ =~= bytes@.subrange(0, words@.len() as int));
    true
}

/// How a failed pin call ended, from the message of the store's client: the store was out
/// of reach where the request could not be sent, else it answered with an error.
pub fn pin_failure(message: String) -> (outcome: PinOutcome)
    ensures
        reports_send_failure(message@) ==> outcome == (PinOutcome::Unreachable {
            reason: message,
        }),
        !reports_send_failure(message@) ==> outcome == (PinOutcome::Rejected { reason: message }),
{
    if is_send_failure(message.as_str()) {
        PinOutcome::Unreachable { reason: message }
    } else {
        PinOutcome::Rejected { reason: message }
    }
}

/// The content identifier, where the store took the document; unavailable where it could
/// not be reached; rejected where it answered with an error.
pub fn anchor_result(outcome: PinOutcome) -> (result: Result<String, EngineError>)
    ensures
        match outcome {
            PinOutcome::Pinned { content_id } => result == Ok::<String, EngineError>(content_id),
            PinOutcome::Unreachable { reason } => result == Err::<String, EngineError>(
                EngineError::AnchorUnavailable { reason },
            ),
            PinOutcome::Rejected { reason } => result == Err::<String, EngineError>(
                EngineError::AnchorRejected { reason },
            ),
        },
{
    match outcome {
        PinOutcome::Pinned { content_id } => Ok(content_id),
        PinOutcome::Unreachable { reason } => Err(EngineError::AnchorUnavailable { reason }),
        PinOutcome::Rejected { reason } => Err(EngineError::AnchorRejected { reason }),
    }
}

} // verus!
