//! Error taxonomy of the composition pipeline.

use vstd::prelude::*;

verus! {

/// A failure on the MIME side of composition: a malformed media type, or a
/// part tree that cannot be assembled from otherwise valid inputs.
#[derive(Debug, PartialEq, Eq, Structural, Clone, Copy)]
pub enum MimeError {
    /// A declared content type is not of the shape `type/subtype`.
    MalformedMediaType,
    /// A message needs at least one alternative body part.
    NoBodyParts,
    /// Only a bare body structure (no top-level headers, no attachments of
    /// its own) can be wrapped together with attachments.
    UnwrappablePart,
}

/// Everything a composition call can fail with.
///
/// Each stage fails fast and hands its error to the immediate caller; no
/// stage retries or recovers.
#[derive(Debug)]
pub enum ComposeError {
    /// Malformed subject or address input.
    HeaderValidation,
    /// The template engine failed; `cause` is the engine's own error text and
    /// `stage` names the stage that failed.
    EngineFailure { stage: String, cause: String },
    /// Building the MIME tree failed.
    MimeStructure(MimeError),
}

impl ComposeError {
    /// True exactly on the header-validation variant.
    pub fn is_header_validation(&self) -> (b: bool)
        ensures
            b == (self is HeaderValidation),
    {
        matches!(self, ComposeError::HeaderValidation)
    }

    /// True exactly on the engine-failure variant.
    pub fn is_engine_failure(&self) -> (b: bool)
        ensures
            b == (self is EngineFailure),
    {
        matches!(self, ComposeError::EngineFailure { .. })
    }

    /// True exactly on the MIME-structure variant.
    pub fn is_mime_structure(&self) -> (b: bool)
        ensures
            b == (self is MimeStructure),
    {
        matches!(self, ComposeError::MimeStructure(..))
    }
}

} // verus!
