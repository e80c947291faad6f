//! Synthesis of Dolby Vision profile 8 RPU metadata records.
//!
//! A run takes one metadata source (a static configuration, optionally
//! enriched with HDR10+ dynamic metadata, or a content-mapping description
//! made of shots), builds one RPU record per frame, and frames each
//! serialised record as a NAL unit of the output stream.
//!
//! The library computes on integers and byte sequences only. Reading
//! files, serialising a record and the floating-point transfer function
//! are left to the caller, who hands over texts, a table of codewords and
//! the bytes of each record.

pub mod error;
pub mod metadata;
pub mod pq;
pub mod json;
pub mod hdr10plus;
pub mod shots;
pub mod rpu;
pub mod generator;
pub mod nal;
