//! Failures of an API call, of reading a response, and of reading or writing
//! image files, as one type.

use vstd::prelude::*;
use vstd::string::StringExecFns;

verus! {

#[verifier::external_type_specification]
#[verifier::external_body]
pub struct ExJsonValue(serde_json::Value);

/// The error object with which the service reports the failure of a call.
/// `param` and `code` are kept as the JSON values that arrived: the service
/// does not fix their shape.
#[derive(Debug)]
pub struct ApiError {
    pub message: String,
    /// The `type` member of the error object.
    pub kind: String,
    pub param: Option<serde_json::Value>,
    pub code: Option<serde_json::Value>,
}

/// The envelope in which the service sends an [`ApiError`]: a JSON object
/// whose `error` member is the error object.
#[derive(Debug)]
pub struct WrappedError {
    pub error: ApiError,
}

/// Every way in which a request can fail. Each failure is exactly one of
/// these; none wraps another.
#[derive(Debug)]
pub enum OpenAIError {
    /// The exchange with the service failed below HTTP; carries the
    /// transport's description of the failure.
    Reqwest(String),
    /// The service answered with an error object.
    ApiError(ApiError),
    /// The response body could not be read as the expected JSON; carries the
    /// parser's description of the failure.
    JSONDeserialize(String),
    /// A received image could not be written to local storage.
    ImageSaveError(String),
    /// A local image could not be read for upload, or its path names no file.
    ImageReadError(String),
}

/// An [`ApiError`] with its texts as character sequences.
pub struct ApiErrorView {
    pub message: Seq<char>,
    pub kind: Seq<char>,
    pub param: Option<serde_json::Value>,
    pub code: Option<serde_json::Value>,
}

/// An [`OpenAIError`] with its texts as character sequences.
pub enum ErrorView {
    Reqwest(Seq<char>),
    ApiError(ApiErrorView),
    JSONDeserialize(Seq<char>),
    ImageSaveError(Seq<char>),
    ImageReadError(Seq<char>),
}

impl ApiErrorView {
    /// The line an error object is shown as: its type, a colon and a space,
    /// then its message.
    pub open spec fn line(self) -> Seq<char> {
        self.kind + ": "@ + self.message
    }
}

impl ErrorView {
    /// The single line a failure is shown as: an error object as
    /// [`ApiErrorView::line`], every other failure as the description it
    /// carries.
    pub open spec fn line(self) -> Seq<char> {
        match self {
            ErrorView::Reqwest(description) => description,
            ErrorView::ApiError(error) => error.line(),
            ErrorView::JSONDeserialize(description) => description,
            ErrorView::ImageSaveError(description) => description,
            ErrorView::ImageReadError(description) => description,
        }
    }
}

impl View for ApiError {
    type V = ApiErrorView;

    open spec fn view(&self) -> ApiErrorView {
        ApiErrorView {
            message: self.message@,
            kind: self.kind@,
            param: self.param,
            code: self.code,
        }
    }
}

impl View for OpenAIError {
    type V = ErrorView;

    open spec fn view(&self) -> ErrorView {
        match self {
            OpenAIError::Reqwest(description) => ErrorView::Reqwest(description@),
            OpenAIError::ApiError(error) => ErrorView::ApiError(error@),
            OpenAIError::JSONDeserialize(description) => ErrorView::JSONDeserialize(description@),
            OpenAIError::ImageSaveError(description) => ErrorView::ImageSaveError(description@),
            OpenAIError::ImageReadError(description) => ErrorView::ImageReadError(description@),
        }
    }
}

impl ApiError {
    /// The line the error object is shown as.
    pub fn to_string(&self) -> (text: String)
        ensures
            text@ == self@.line(),
    {
        let mut text = self.kind.clone();
        text.append(": ");
        text.append(self.message.as_str());
        text
    }
}

impl OpenAIError {
    /// The single line the failure is shown as.
    pub fn to_string(&self) -> (text: String)
        ensures
            text@ == self@.line(),
    {
        match self {
            OpenAIError::Reqwest(description) => description.clone(),
            OpenAIError::ApiError(error) => error.to_string(),
            OpenAIError::JSONDeserialize(description) => description.clone(),
            OpenAIError::ImageSaveError(description) => description.clone(),
            OpenAIError::ImageReadError(description) => description.clone(),
        }
    }
}

} // verus!
