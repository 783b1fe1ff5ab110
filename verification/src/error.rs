use vstd::prelude::*;

use crate::song::{ValidationError, YtDlpError};

verus! {

/// Why an enqueue request is refused.
#[derive(Debug)]
pub enum EnqueueError {
    /// The request body is not the expected JSON; holds the parser's message.
    DeserializationError(String),
    /// An I/O operation failed; holds its message.
    IoOperationError(String),
    /// The URL is not accepted; holds the reason.
    SanitizationError(String),
    /// The song breaks a rule of the party.
    ValidationError(ValidationError),
    /// Details of the song could not be fetched.
    InfoExtractionError(YtDlpError),
}

/// The text shown to the guest for each error.
pub open spec fn error_message(err: EnqueueError) -> Seq<char> {
    match err {
        EnqueueError::DeserializationError(m) => "Failed to deserialize the JSON: "@ + m@,
        EnqueueError::IoOperationError(m) => "Unable to perform I/O operation: "@ + m@,
        EnqueueError::SanitizationError(m) => "Illegal URL: "@ + m@,
        EnqueueError::ValidationError(_) => "Forbidden: "@
            + "The length of your song exceeds the allowed limit!"@,
        EnqueueError::InfoExtractionError(_) => "Could not extract info about song: "@,
    }
}

impl EnqueueError {
    /// The text shown to the guest.
    pub fn message(&self) -> (r: String)
        ensures
            r@ == error_message(*self),
    {
        match self {
            EnqueueError::DeserializationError(m) => {
                let mut r = String::from_str("Failed to deserialize the JSON: ");
                r.append(m.as_str());
                r
            },
            EnqueueError::IoOperationError(m) => {
                let mut r = String::from_str("Unable to perform I/O operation: ");
                r.append(m.as_str());
                r
            },
            EnqueueError::SanitizationError(m) => {
                let mut r = String::from_str("Illegal URL: ");
                r.append(m.as_str());
                r
            },
            EnqueueError::ValidationError(e) => {
                let mut r = String::from_str("Forbidden: ");
                let detail = e.message();
                r.append(detail.as_str());
                r
            },
            EnqueueError::InfoExtractionError(_) => {
                String::from_str("Could not extract info about song: ")
            },
        }
    }
}

} // verus!
