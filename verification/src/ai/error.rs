//! Why an answer of the text generator gives no message.

use crate::number::{push_signed_decimal, signed_decimal};
use vstd::prelude::*;
use vstd::string::StringExecFns;

verus! {

/// Why an answer gives no message.
#[derive(Debug, Clone)]
pub enum AiError {
    /// No line of the answer is a suggestion.
    NoSuggestions,
    /// The service reports an error.
    Api { code: i32, message: String, status: String },
    /// The request was answered with a status that is no success.
    RequestFailed { status: String, body: String },
}

/// What is said of an answer without suggestions.
pub const NO_SUGGESTIONS: &'static str =
    "No valid commit suggestions derived from AI response after filtering. The AI might have returned explanatory text instead of commit messages.";

/// What is said of an error of the service, up to its code.
pub const API_ERROR_CODE: &'static str = "Gemini API returned an error: code ";

/// What stands before the message of an error of the service.
pub const API_ERROR_MESSAGE: &'static str = ", message: ";

/// What stands before the status of an error of the service.
pub const API_ERROR_STATUS: &'static str = ", status: ";

/// What is said of a request that failed, up to its status.
pub const REQUEST_FAILED: &'static str = "Gemini API request failed with status ";

/// What stands before the body of the answer to a request that failed.
pub const REQUEST_FAILED_BODY: &'static str = ": ";

impl AiError {
    /// The error in words.
    pub open spec fn text(self) -> Seq<char> {
        match self {
            AiError::NoSuggestions => NO_SUGGESTIONS@,
            AiError::Api { code, message, status } => API_ERROR_CODE@ + signed_decimal(code as int)
                + API_ERROR_MESSAGE@ + message@ + API_ERROR_STATUS@ + status@,
            AiError::RequestFailed { status, body } => REQUEST_FAILED@ + status@
                + REQUEST_FAILED_BODY@ + body@,
        }
    }

    /// The error in words.
    pub fn message(&self) -> (s: String)
        ensures
            s@ == self.text(),
    {
        match self {
            AiError::NoSuggestions => String::from_str(NO_SUGGESTIONS),
            AiError::Api { code, message, status } => {
                let mut s = String::from_str(API_ERROR_CODE);
                push_signed_decimal(&mut s, *code as i64);
                s.append(API_ERROR_MESSAGE);
                s.append(message.as_str());
                s.append(API_ERROR_STATUS);
                s.append(status.as_str());
                s
            },
            AiError::RequestFailed { status, body } => {
                let mut s = String::from_str(REQUEST_FAILED);
                s.append(status.as_str());
                s.append(REQUEST_FAILED_BODY);
                s.append(body.as_str());
                s
            },
        }
    }
}

} // verus!
