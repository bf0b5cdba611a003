//! The errors that searches and transfers report.

use vstd::prelude::*;

verus! {

/// What went wrong in an operation against the platform.
#[derive(Debug, Clone, PartialEq, Eq)]
pub enum DxError {
    /// A location could be read neither as an identifier nor as a known path.
    AddressingAmbiguous,
    /// The local source to upload holds no bytes.
    EmptySource,
    /// The platform answered with a structured error.
    RemoteRejected { error_type: String, message: String },
    /// The network or the local file failed without a structured answer.
    TransportFailure(String),
    /// The remote object was created but never closed.
    IncompleteSession,
}

impl DxError {
    /// The text shown to a user: a platform error as its kind and message,
    /// any other error as its description.
    pub fn message(&self) -> (r: String)
        ensures
            match self {
                DxError::RemoteRejected { error_type, message } => r@ == error_type@ + ": "@
                    + message@,
                DxError::TransportFailure(m) => r@ == m@,
                DxError::AddressingAmbiguous => r@
                    == "Location is neither an identifier nor a known path"@,
                DxError::EmptySource => r@ == "Source is empty"@,
                DxError::IncompleteSession => r@ == "Upload was not closed"@,
            },
    {
        match self {
            DxError::RemoteRejected { error_type, message } => {
                let mut out = error_type.clone();
                out.append(": ");
                out.append(message.as_str());
                out
            },
            DxError::TransportFailure(m) => m.clone(),
            DxError::AddressingAmbiguous => String::from_str(
                "Location is neither an identifier nor a known path",
            ),
            DxError::EmptySource => String::from_str("Source is empty"),
            DxError::IncompleteSession => String::from_str("Upload was not closed"),
        }
    }
}

} // verus!
