//! Error taxonomy of the archive reader.
//!
//! Two tiers: a stream that does not begin with the magic signature is not
//! this format at all (`ParseError::NotArchiveFormat`), and the caller may try
//! another parser.  Once the magic has matched, every further failure is an
//! internal one (`ParseError::InternalError`): the file claims to be an
//! archive, so an inconsistency is a defect or an unsupported variant, not a
//! format mismatch.

use vstd::prelude::*;

verus! {

/// Names one of the variable-length tables of the node section, in the fixed
/// file order in which they are laid out.
#[derive(Clone, Copy, Debug, PartialEq, Eq, Structural)]
pub enum SectionId {
    BulkfileCategoryInfo,
    BulkfileHashLookup,
    BulkfilesByName,
    BulkfileLookupToFileidx,
    FilePairs,
    AnotherHashTable,
    BigHashes,
    BigFiles,
    FolderHashLookup,
    Trees,
    SubFiles1,
    SubFiles2,
    FolderToBigHash,
    FileLookupBuckets,
    FileLookup,
}

/// A failure after the magic signature has matched.
#[derive(Clone, Copy, Debug, PartialEq, Eq, Structural)]
pub enum ArchiveError {
    /// A header region is missing from the stream or its fields are
    /// inconsistent (for instance a node-section size below the node
    /// header's own size).
    CorruptHeader,
    /// A section's computed length exceeds what is left of the node-section
    /// buffer.  `needed` is the length the section asked for, `available`
    /// what remained in front of it.
    TruncatedData { section: SectionId, needed: u64, available: u64 },
    /// The node section is stored compressed; decoding that variant is out
    /// of scope, but it is recognized and reported rather than misread.
    UnsupportedFeature,
}

/// The result classification of a whole parse.
#[derive(Clone, Copy, Debug, PartialEq, Eq, Structural)]
pub enum ParseError {
    /// The stream does not begin with the magic number 0xabcdef9876543210,
    /// so it is not an archive of this format.
    NotArchiveFormat,
    /// A failure on a stream whose magic did match: a bug or an unsupported
    /// variant rather than a foreign format.
    InternalError(ArchiveError),
}

} // verus!
