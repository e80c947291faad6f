//! The errors that end a generation run.

use vstd::prelude::*;

verus! {

/// The kind of metadata source a run reads.
#[derive(Clone, Copy, Debug, PartialEq, Eq, Structural)]
pub enum SourceKind {
    /// The static configuration alone.
    Config,
    /// The static configuration together with HDR10+ dynamic metadata.
    Hdr10Plus,
    /// A content-mapping description made of shots.
    Xml,
}

/// Why a run was aborted. Every error is terminal: there is no partial output.
#[derive(Clone, Copy, Debug, PartialEq, Eq, Structural)]
pub enum GenerateError {
    /// The metadata of `source` does not parse, or lacks a required field, or
    /// holds a value of the wrong kind. `index` is the entry at fault, or
    /// `None` where the document as a whole is at fault.
    MalformedMetadata { source: SourceKind, index: Option<u64> },
    /// The serialised form of the record of frame `frame` is not a
    /// well-formed RPU payload.
    RpuEncodingFailure { frame: u64 },
}

} // verus!
