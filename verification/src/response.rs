//! The uniform answer of every operation, and how it is made from what the
//! platform store reported.
//!
//! Nothing here touches the platform. Each function takes the outcome of a
//! platform call as a plain value and says, for every such value, which
//! response it becomes.

use vstd::prelude::*;
use vstd::string::*;

verus! {

/// The three operations on a secret.
#[derive(Debug, Clone, Copy, PartialEq, Eq)]
pub enum Operation {
    /// Write a secret, over any earlier one.
    Store,
    /// Read a secret.
    Retrieve,
    /// Remove a secret.
    Delete,
}

/// Why a call on the platform store gave no result. Each variant holds the
/// platform's own message.
#[derive(Debug, PartialEq, Eq)]
pub enum Failure {
    /// The platform gave no handle for the entry name under the account.
    Entry(String),
    /// The platform gave a handle, and the operation on it failed: no such
    /// entry, several matching entries, no permission, store locked or
    /// unreachable.
    Call(String),
}

/// The answer of an operation.
#[derive(Debug, PartialEq, Eq)]
pub struct SecureStoreResponse {
    /// Whether the operation succeeded.
    pub success: bool,
    /// The secret that a successful retrieval found.
    pub data: Option<String>,
    /// What went wrong, in words, when the operation failed.
    pub error: Option<String>,
}

/// A response as a mathematical value: its strings as sequences of characters.
pub struct ResponseView {
    pub success: bool,
    pub data: Option<Seq<char>>,
    pub error: Option<Seq<char>>,
}

impl View for SecureStoreResponse {
    type V = ResponseView;

    open spec fn view(&self) -> ResponseView {
        ResponseView {
            success: self.success,
            data: match self.data {
                Some(value) => Some(value@),
                None => None,
            },
            error: match self.error {
                Some(text) => Some(text@),
                None => None,
            },
        }
    }
}

/// The phrase that opens the error text when the platform gave no handle.
pub open spec fn entry_phrase() -> Seq<char> {
    "failed to create keyring entry"@
}

impl Operation {
    /// The phrase that opens the error text when this operation failed on a
    /// handle.
    pub open spec fn phrase(self) -> Seq<char> {
        match self {
            Operation::Store => "failed to set secret"@,
            Operation::Retrieve => "failed to get secret"@,
            Operation::Delete => "failed to delete secret"@,
        }
    }
}

/// An error text: the phrase, a colon and a space, and the platform's message
/// as it came.
pub open spec fn error_text(phrase: Seq<char>, message: Seq<char>) -> Seq<char> {
    phrase + ": "@ + message
}

impl ResponseView {
    /// Success with nothing to hand back.
    pub open spec fn done() -> ResponseView {
        ResponseView { success: true, data: None, error: None }
    }

    /// Success with the secret that was found.
    pub open spec fn found(value: Seq<char>) -> ResponseView {
        ResponseView { success: true, data: Some(value), error: None }
    }

    /// Failure for want of a handle, with the platform's message.
    pub open spec fn refused(message: Seq<char>) -> ResponseView {
        ResponseView {
            success: false,
            data: None,
            error: Some(error_text(entry_phrase(), message)),
        }
    }

    /// Failure of `op` on a handle, with the platform's message.
    pub open spec fn failed(op: Operation, message: Seq<char>) -> ResponseView {
        ResponseView { success: false, data: None, error: Some(error_text(op.phrase(), message)) }
    }

    /// The response to `failure` when it met `op`.
    pub open spec fn of_failure(op: Operation, failure: Failure) -> ResponseView {
        match failure {
            Failure::Entry(message) => Self::refused(message@),
            Failure::Call(message) => Self::failed(op, message@),
        }
    }

    /// The response to the outcome of a store.
    pub open spec fn of_store(outcome: Result<(), Failure>) -> ResponseView {
        match outcome {
            Ok(_) => Self::done(),
            Err(failure) => Self::of_failure(Operation::Store, failure),
        }
    }

    /// The response to the outcome of a retrieval.
    pub open spec fn of_retrieve(outcome: Result<String, Failure>) -> ResponseView {
        match outcome {
            Ok(value) => Self::found(value@),
            Err(failure) => Self::of_failure(Operation::Retrieve, failure),
        }
    }

    /// The response to the outcome of a removal.
    pub open spec fn of_delete(outcome: Result<(), Failure>) -> ResponseView {
        match outcome {
            Ok(_) => Self::done(),
            Err(failure) => Self::of_failure(Operation::Delete, failure),
        }
    }

    /// The flag and the two optional fields agree: a success carries no error,
    /// a failure carries no data and an error text that is not empty.
    pub open spec fn well_formed(self) -> bool {
        if self.success {
            self.error is None
        } else {
            self.data is None && self.error is Some && self.error->0.len() > 0
        }
    }

    /// The responses that `op` can give, whatever the platform does: its
    /// success, with a secret for a retrieval and without one otherwise, or
    /// one of its two failures with some message.
    pub open spec fn answers(self, op: Operation) -> bool {
        ||| op is Retrieve && self.data is Some && self == Self::found(self.data->0)
        ||| op !is Retrieve && self == Self::done()
        ||| exists|message: Seq<char>| self == Self::refused(message)
        ||| exists|message: Seq<char>| self == Self::failed(op, message)
    }
}

/// An error text is longer than its message, so it is never empty, and it
/// opens with its phrase, the colon and the space.
pub proof fn lemma_error_text_opens_with_phrase(phrase: Seq<char>, message: Seq<char>)
    ensures
        error_text(phrase, message).len() == phrase.len() + 2 + message.len(),
        (phrase + ": "@).is_prefix_of(error_text(phrase, message)),
{
    reveal_strlit(": ");
    let head = phrase + ": "@;
    assert(error_text(phrase, message).subrange(0, head.len() as int) =~= head);
}

/// Every response that an operation can give is well formed: a success has no
/// error, a failure has no data and an error text that is not empty.
pub proof fn lemma_answers_well_formed(response: ResponseView, op: Operation)
    requires
        response.answers(op),
    ensures
        response.well_formed(),
        response.success ==> response.error is None,
        !response.success ==> response.data is None,
{
    if !response.success {
        if exists|message: Seq<char>| response == ResponseView::refused(message) {
            let message = choose|message: Seq<char>| response == ResponseView::refused(message);
            lemma_error_text_opens_with_phrase(entry_phrase(), message);
        } else {
            let message = choose|message: Seq<char>| response == ResponseView::failed(op, message);
            lemma_error_text_opens_with_phrase(op.phrase(), message);
        }
    }
}

/// The phrase of `op`, as a string.
fn operation_phrase(op: Operation) -> (phrase: &'static str)
    ensures
        phrase@ == op.phrase(),
{
    match op {
        Operation::Store => "failed to set secret",
        Operation::Retrieve => "failed to get secret",
        Operation::Delete => "failed to delete secret",
    }
}

/// Joins a phrase and the platform's message into an error text.
fn join(phrase: &str, message: &str) -> (text: String)
    ensures
        text@ == error_text(phrase@, message@),
{
    let mut text = String::from_str(phrase);
    text.append(": ");
    text.append(message);
    text
}

/// The response to a failure that met `op`.
fn failure_response(op: Operation, failure: Failure) -> (response: SecureStoreResponse)
    ensures
        response@ == ResponseView::of_failure(op, failure),
        response@.answers(op),
{
    let text = match failure {
        Failure::Entry(message) => join("failed to create keyring entry", message.as_str()),
        Failure::Call(message) => join(operation_phrase(op), message.as_str()),
    };
    SecureStoreResponse { success: false, data: None, error: Some(text) }
}

/// The response to a store, from what the platform reported: success with
/// neither data nor error when the write went through; when it did not, a
/// failure whose text is the phrase of a refused entry or of a failed write,
/// then the platform's message.
pub fn store_response(outcome: Result<(), Failure>) -> (response: SecureStoreResponse)
    ensures
        response@ == ResponseView::of_store(outcome),
        response@.answers(Operation::Store),
        response@.well_formed(),
{
    let response = match outcome {
        Ok(_) => SecureStoreResponse { success: true, data: None, error: None },
        Err(failure) => failure_response(Operation::Store, failure),
    };
    proof {
        lemma_answers_well_formed(response@, Operation::Store);
    }
    response
}

/// The response to a retrieval, from what the platform reported: success
/// with the secret as it came when one was read; when none was, a failure
/// whose text is the phrase of a refused entry or of a failed read, then the
/// platform's message.
pub fn retrieve_response(outcome: Result<String, Failure>) -> (response: SecureStoreResponse)
    ensures
        response@ == ResponseView::of_retrieve(outcome),
        response@.answers(Operation::Retrieve),
        response@.well_formed(),
{
    let response = match outcome {
        Ok(value) => SecureStoreResponse { success: true, data: Some(value), error: None },
        Err(failure) => failure_response(Operation::Retrieve, failure),
    };
    proof {
        lemma_answers_well_formed(response@, Operation::Retrieve);
    }
    response
}

/// The response to a removal, from what the platform reported: success with
/// neither data nor error when the entry was removed; when it was not, a
/// failure whose text is the phrase of a refused entry or of a failed
/// removal, then the platform's message. An entry that was not there is such
/// a failure.
pub fn delete_response(outcome: Result<(), Failure>) -> (response: SecureStoreResponse)
    ensures
        response@ == ResponseView::of_delete(outcome),
        response@.answers(Operation::Delete),
        response@.well_formed(),
{
    let response = match outcome {
        Ok(_) => SecureStoreResponse { success: true, data: None, error: None },
        Err(failure) => failure_response(Operation::Delete, failure),
    };
    proof {
        lemma_answers_well_formed(response@, Operation::Delete);
    }
    response
}

} // verus!
