use vstd::prelude::*;

verus! {

/// The decoding step that failed.
#[derive(Clone, Copy, Debug, PartialEq, Eq, Structural)]
pub enum DecodeStep {
    Json,
    Base64,
    Utf8,
    Toml,
}

/// A field that a response or the source manifest lacks.
#[derive(Clone, Copy, Debug, PartialEq, Eq, Structural)]
pub enum ManifestField {
    Sha,
    Content,
    PackageVersion,
}

/// Why a promotion stopped.
#[derive(Clone, Debug, PartialEq, Eq)]
pub enum PromoteError {
    /// Only the stable and beta channels can be promoted.
    UnsupportedChannel,
    /// The repository API could not be reached.
    Network(String),
    /// A response or the source manifest could not be decoded.
    Decode(DecodeStep),
    /// A response or the source manifest lacks a field.
    ManifestShape(ManifestField),
    /// A local file operation failed.
    Io(String),
    /// The copy tool failed; holds the command that was run.
    Subprocess(String),
    /// A promotion was handed an event that it was not waiting for.
    UnexpectedEvent,
}

} // verus!
