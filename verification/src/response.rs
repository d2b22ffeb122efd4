//! Turning what one exchange with the service brought back into the result
//! of the call.

use vstd::prelude::*;

use crate::error::{OpenAIError, WrappedError};

verus! {

/// What one POST brought back. Where a body arrived it is read twice: as
/// the response the endpoint sends on success, and as the envelope of an
/// error object. Each reading is kept with the parser's description of why
/// it failed, if it did.
pub enum Exchange<R> {
    /// No body arrived; carries the transport's description of the failure.
    Failed(String),
    /// A body arrived.
    Answered { success: Result<R, String>, failure: Result<WrappedError, String> },
}

/// The result of a call, given what the exchange brought back: a transport
/// failure as it is; else the response, if the body reads as one; else the
/// error object, if the body reads as its envelope; else the failure to
/// read the body as a response.
pub open spec fn outcome<R>(exchange: Exchange<R>) -> Result<R, OpenAIError> {
    match exchange {
        Exchange::Failed(description) => Err(OpenAIError::Reqwest(description)),
        Exchange::Answered { success: Ok(response), failure } => Ok(response),
        Exchange::Answered { success: Err(unread), failure: Ok(wrapped) } => Err(
            OpenAIError::ApiError(wrapped.error),
        ),
        Exchange::Answered { success: Err(unread), failure: Err(_) } => Err(
            OpenAIError::JSONDeserialize(unread),
        ),
    }
}

/// Decides the result of a call from what the exchange brought back.
pub fn dispatch<R>(exchange: Exchange<R>) -> (out: Result<R, OpenAIError>)
    ensures
        out == outcome(exchange),
{
    match exchange {
        Exchange::Failed(description) => Err(OpenAIError::Reqwest(description)),
        Exchange::Answered { success, failure } => match success {
            Ok(response) => Ok(response),
            Err(unread) => match failure {
                Ok(wrapped) => Err(OpenAIError::ApiError(wrapped.error)),
                Err(_) => Err(OpenAIError::JSONDeserialize(unread)),
            },
        },
    }
}

/// A body that reads as the envelope of an error object, and not as a
/// response, is reported as that error object, message and type unchanged.
/// Whatever else the exchange held, such a body is never reported as a
/// failure to deserialize.
pub proof fn lemma_error_body_is_reported<R>(success: Result<R, String>, wrapped: WrappedError)
    ensures
        !(outcome(Exchange::Answered { success, failure: Ok(wrapped) }) matches Err(
            OpenAIError::JSONDeserialize(_),
        )),
        success is Err ==> outcome(Exchange::Answered { success, failure: Ok(wrapped) }) == Err::<
            R,
            OpenAIError,
        >(OpenAIError::ApiError(wrapped.error)),
        success is Err ==> (outcome(Exchange::Answered { success, failure: Ok(wrapped) }) matches Err(
            OpenAIError::ApiError(error),
        ) && error.message == wrapped.error.message && error.kind == wrapped.error.kind),
{
}

/// A body that reads neither as a response nor as the envelope of an error
/// object is reported as a failure to deserialize, which carries the
/// description of why it is no response; that description is not empty
/// where the parser's was not.
pub proof fn lemma_unreadable_body_is_reported<R>(unread: String, unwrapped: String)
    requires
        unread@.len() > 0,
    ensures
        outcome(
            Exchange::Answered { success: Err::<R, String>(unread), failure: Err(unwrapped) },
        ) matches Err(OpenAIError::JSONDeserialize(description)) && description == unread
            && description@.len() > 0,
{
}

} // verus!
