//! The error kinds of the pipeline. Every failure aborts the run; each kind
//! maps to a distinct, stable exit code so scripts can branch on the class.

use vstd::prelude::*;

verus! {

/// Everything that can go wrong between reading the chain token and writing
/// the last source file.
#[derive(Clone, Copy, Debug, PartialEq, Eq, Structural)]
pub enum CloneError {
    /// The chain token is neither a decimal number nor a known alias.
    UnknownChain,
    /// The destination path already exists.
    DestinationExists,
    /// The external scaffolding tool failed.
    ScaffoldError,
    /// Transport failure, timeout, or a non-success HTTP status.
    NetworkError,
    /// The response body is not valid JSON, or lacks a non-empty `result` array.
    MalformedEnvelope,
    /// The first result entry has no `SourceCode` string field.
    MissingSourceCode,
    /// The un-escaped source payload is not a valid, safely keyed source object.
    MalformedSourceObject,
    /// The source object has no `sources` object field.
    MissingSources,
    /// A `sources` entry has no `content` string field.
    MissingContent,
    /// The `SourceCode` field holds plain source text, not a JSON envelope.
    UnsupportedSingleFileFormat,
    /// A filesystem operation failed.
    FileSystemError,
}

/// The stable exit code of each error kind.
pub open spec fn spec_exit_code(e: CloneError) -> u8 {
    match e {
        CloneError::UnknownChain => 2,
        CloneError::DestinationExists => 3,
        CloneError::ScaffoldError => 4,
        CloneError::NetworkError => 5,
        CloneError::MalformedEnvelope => 6,
        CloneError::MissingSourceCode => 7,
        CloneError::MalformedSourceObject => 8,
        CloneError::MissingSources => 9,
        CloneError::MissingContent => 10,
        CloneError::UnsupportedSingleFileFormat => 11,
        CloneError::FileSystemError => 12,
    }
}

impl CloneError {
    /// The process exit code for this error: non-zero and distinct per kind.
    pub fn exit_code(&self) -> (r: u8)
        ensures
            r == spec_exit_code(*self),
            r != 0,
    {
        match self {
            CloneError::UnknownChain => 2,
            CloneError::DestinationExists => 3,
            CloneError::ScaffoldError => 4,
            CloneError::NetworkError => 5,
            CloneError::MalformedEnvelope => 6,
            CloneError::MissingSourceCode => 7,
            CloneError::MalformedSourceObject => 8,
            CloneError::MissingSources => 9,
            CloneError::MissingContent => 10,
            CloneError::UnsupportedSingleFileFormat => 11,
            CloneError::FileSystemError => 12,
        }
    }
}

/// Distinct error kinds never share an exit code.
pub proof fn lemma_exit_codes_distinct(a: CloneError, b: CloneError)
    ensures
        spec_exit_code(a) == spec_exit_code(b) ==> a == b,
{
}

} // verus!
