use vstd::prelude::*;

verus! {

/// The caller-visible failure taxonomy. Every engine-level failure is mapped
/// to exactly one of these shapes, carrying the engine's own diagnostic text
/// where the engine gives one and a fixed sentinel where it gives none.
#[derive(Debug)]
pub enum BridgeError {
    /// A protocol session could not be acquired at all.
    EngineUnavailable,
    /// The engine rejected the supplied binary path or home directory;
    /// the engine's diagnostic is kept verbatim.
    ConfigurationRejected(String),
    /// A key lookup or search operation itself could not be run
    /// (distinct from a search that found no usable key).
    KeyResolutionFailed(String),
    /// The engine rejected an encrypt, decrypt, import or inspect call.
    OperationFailed(String),
    /// The engine's output bytes were not valid text.
    DecodeFailed(String),
    /// No usable key was parsed from the supplied key material.
    NotFound,
}

/// The mathematical model of a [`BridgeError`]: the same taxonomy with each
/// diagnostic as a character sequence.
pub enum ErrorModel {
    EngineUnavailable,
    ConfigurationRejected(Seq<char>),
    KeyResolutionFailed(Seq<char>),
    OperationFailed(Seq<char>),
    DecodeFailed(Seq<char>),
    NotFound,
}

impl View for BridgeError {
    type V = ErrorModel;

    open spec fn view(&self) -> ErrorModel {
        match self {
            BridgeError::EngineUnavailable => ErrorModel::EngineUnavailable,
            BridgeError::ConfigurationRejected(d) => ErrorModel::ConfigurationRejected(d@),
            BridgeError::KeyResolutionFailed(d) => ErrorModel::KeyResolutionFailed(d@),
            BridgeError::OperationFailed(d) => ErrorModel::OperationFailed(d@),
            BridgeError::DecodeFailed(d) => ErrorModel::DecodeFailed(d@),
            BridgeError::NotFound => ErrorModel::NotFound,
        }
    }
}

impl ErrorModel {
    /// The diagnostic text of an error: the engine's own text where the
    /// variant carries one, a fixed sentinel otherwise.
    pub open spec fn message(self) -> Seq<char> {
        match self {
            ErrorModel::EngineUnavailable => "error"@,
            ErrorModel::ConfigurationRejected(d) => d,
            ErrorModel::KeyResolutionFailed(d) => d,
            ErrorModel::OperationFailed(d) => d,
            ErrorModel::DecodeFailed(d) => d,
            ErrorModel::NotFound => "no valid key found"@,
        }
    }
}

impl BridgeError {
    /// The most specific diagnostic available for this error.
    pub fn message(&self) -> (r: String)
        ensures
            r@ == self@.message(),
    {
        match self {
            BridgeError::EngineUnavailable => "error".to_string(),
            BridgeError::ConfigurationRejected(d) => d.clone(),
            BridgeError::KeyResolutionFailed(d) => d.clone(),
            BridgeError::OperationFailed(d) => d.clone(),
            BridgeError::DecodeFailed(d) => d.clone(),
            BridgeError::NotFound => "no valid key found".to_string(),
        }
    }
}

} // verus!
