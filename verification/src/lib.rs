//! Reader for the index of a game-asset archive container.
//!
//! An archive starts with a magic signature and a fixed header of section
//! offsets.  At the node-section offset sits either a compressed-node header
//! (recognized but not decoded) or a raw node header whose sixteen counts
//! determine, in a fixed order, the boundaries of thirteen variable-length
//! tables packed back-to-back in one buffer, followed by a bucket table whose
//! length is read from the buffer itself, a lookup table, and a trailing
//! region.  The library slices that buffer into typed byte ranges and decodes
//! the fixed-size records inside them.
//!
//! The whole pipeline is a pure transform from bytes to structured views:
//! stream bytes to header fields to counts to section boundaries to records.
//! Reading the stream into memory is the caller's business; [`parse`] takes
//! the bytes and returns either a [`ParsedArchive`] of byte ranges or an
//! error that says whether the stream is simply not this format or is a
//! defective or unsupported archive.

use vstd::prelude::*;

pub mod error;
pub mod headers;
pub mod le;
pub mod records;
pub mod resolver;

pub use crate::error::{ArchiveError, ParseError};
use crate::headers::{
    arc_header_at, compressed_node_header_at, node_header_at, read_arc_header,
    read_compressed_node_header, read_node_header, ArcHeader, NodeHeader,
};
use crate::le::{le_at, read_u64_at};
use crate::resolver::{
    is_trunc_at, resolve, sec_start, spec_resolve_tail, spec_sections, SectionLayout, TailSections,
};
use vstd::slice::slice_subrange;

verus! {

/// The 64-bit magic signature at the start of every archive, compared
/// against the first eight bytes read little-endian.
pub const MAGIC: u64 = 0xabcdef9876543210;

/// Everything `parse` resolves about one archive: the two headers and the
/// layout of the node-section buffer, which occupies the stream bytes
/// `payload_start .. payload_start + payload_len` and whose section ranges
/// are relative to that buffer.
#[derive(Clone, Copy, Debug, PartialEq, Eq, Structural)]
pub struct ParsedArchive {
    pub header: ArcHeader,
    pub node_header: NodeHeader,
    /// Absolute stream offset of the node-section buffer (right after the
    /// 68-byte node header).
    pub payload_start: usize,
    /// Length of the node-section buffer: the node header's declared
    /// `file_size` minus the 68 header bytes.
    pub payload_len: usize,
    pub layout: SectionLayout,
}

/// The stream begins with the magic signature.
pub open spec fn magic_ok(s: Seq<u8>) -> bool {
    s.len() >= 8 && le_at(s, 0, 8) == MAGIC
}

/// The stream is long enough to hold the magic and the 40-byte archive
/// header that follows it.
pub open spec fn arc_header_region_ok(s: Seq<u8>) -> bool {
    s.len() >= 48
}

/// The archive header, which sits at stream offset 8.
pub open spec fn spec_arc_header(s: Seq<u8>) -> ArcHeader {
    arc_header_at(s, 8)
}

/// The absolute offset of the node section.
pub open spec fn spec_node_offset(s: Seq<u8>) -> int {
    spec_arc_header(s).node_section_offset as int
}

/// The 16-byte probe at the node-section offset lies inside the stream.
pub open spec fn probe_region_ok(s: Seq<u8>) -> bool {
    arc_header_region_ok(s) && spec_node_offset(s) + 16 <= s.len()
}

/// The probe identifies a compressed node section: `data_start` below 0x100.
pub open spec fn compressed_node(s: Seq<u8>) -> bool {
    probe_region_ok(s) && compressed_node_header_at(s, spec_node_offset(s)).data_start < 0x100
}

/// The raw 68-byte node header lies inside the stream.
pub open spec fn node_header_region_ok(s: Seq<u8>) -> bool {
    probe_region_ok(s) && !compressed_node(s) && spec_node_offset(s) + 68 <= s.len()
}

/// The node header at the node-section offset.
pub open spec fn spec_node_header(s: Seq<u8>) -> NodeHeader {
    node_header_at(s, spec_node_offset(s))
}

/// The declared node-section size covers at least the node header itself.
pub open spec fn file_size_ok(s: Seq<u8>) -> bool {
    node_header_region_ok(s) && spec_node_header(s).file_size >= 68
}

/// Absolute stream offset of the node-section buffer.
pub open spec fn spec_payload_start(s: Seq<u8>) -> int {
    spec_node_offset(s) + 68
}

/// Length of the node-section buffer.
pub open spec fn spec_payload_len(s: Seq<u8>) -> int {
    spec_node_header(s).file_size - 68
}

/// The node-section buffer lies inside the stream.
pub open spec fn payload_region_ok(s: Seq<u8>) -> bool {
    file_size_ok(s) && spec_payload_start(s) + spec_payload_len(s) <= s.len()
}

/// The node-section buffer itself.
pub open spec fn spec_payload(s: Seq<u8>) -> Seq<u8> {
    s.subrange(spec_payload_start(s), spec_payload_start(s) + spec_payload_len(s))
}

/// A header region is missing or inconsistent: the stream cannot hold the
/// archive header, the probe, the node header, or the node-section buffer
/// that the node header declares, or `file_size` is below the node header's
/// own size.
pub open spec fn header_corrupt(s: Seq<u8>) -> bool {
    ||| !arc_header_region_ok(s)
    ||| (arc_header_region_ok(s) && spec_node_offset(s) + 16 > s.len())
    ||| (probe_region_ok(s) && !compressed_node(s) && spec_node_offset(s) + 68 > s.len())
    ||| (node_header_region_ok(s) && spec_node_header(s).file_size < 68)
    ||| (file_size_ok(s) && spec_payload_start(s) + spec_payload_len(s) > s.len())
}

/// All thirteen header-driven sections fit in the node-section buffer.
pub open spec fn sections_fit(s: Seq<u8>) -> bool {
    sec_start(spec_node_header(s), 13) <= spec_payload_len(s)
}

/// The outcome of resolving the data-driven tail of the buffer.
pub open spec fn spec_tail_result(s: Seq<u8>) -> Result<TailSections, ArchiveError> {
    spec_resolve_tail(
        spec_node_header(s),
        spec_payload(s),
        sec_start(spec_node_header(s), 13) as int,
    )
}

/// Every stage after the magic succeeds on `s`.
pub open spec fn internal_ok(s: Seq<u8>) -> bool {
    payload_region_ok(s) && sections_fit(s) && spec_tail_result(s) is Ok
}

/// `a` is the archive that stream `s` describes: both headers decoded at
/// their stream offsets, the payload range as the node header declares it,
/// and the section layout resolved over that payload.
pub open spec fn parsed_archive_matches(s: Seq<u8>, a: ParsedArchive) -> bool {
    &&& a.header == spec_arc_header(s)
    &&& a.node_header == spec_node_header(s)
    &&& a.payload_start as int == spec_payload_start(s)
    &&& a.payload_len as int == spec_payload_len(s)
    &&& a.layout.sections == spec_sections(spec_node_header(s))
    &&& spec_tail_result(s) == Ok::<TailSections, ArchiveError>(a.layout.tail)
}

/// `e` is the internal error that stream `s` earns: the first stage that
/// fails determines it.  A missing or inconsistent header region is
/// `CorruptHeader`; a compressed node section is `UnsupportedFeature`; an
/// overlong section is the truncation report of the first section that
/// overflows the buffer.
pub open spec fn internal_error_matches(s: Seq<u8>, e: ArchiveError) -> bool {
    if header_corrupt(s) {
        e == ArchiveError::CorruptHeader
    } else if compressed_node(s) {
        e == ArchiveError::UnsupportedFeature
    } else if !sections_fit(s) {
        exists|k: int|
            0 <= k < 13 && #[trigger] is_trunc_at(
                spec_node_header(s),
                spec_payload_len(s) as nat,
                k,
                e,
            )
    } else if spec_tail_result(s) is Err {
        Err::<TailSections, ArchiveError>(e) == spec_tail_result(s)
    } else {
        false
    }
}

/// Parses everything after the magic signature: decodes the archive header
/// at offset 8, probes the node-section offset, rejects the compressed
/// variant, decodes the raw node header, and resolves the section layout of
/// the node-section buffer.
pub fn internal_parse(stream: &[u8]) -> (r: Result<ParsedArchive, ArchiveError>)
    ensures
        r is Ok <==> internal_ok(stream@),
        r matches Ok(a) ==> parsed_archive_matches(stream@, a),
        r matches Err(e) ==> internal_error_matches(stream@, e),
{
    let len = stream.len();
    let header = match read_arc_header(stream, 8) {
        Some(h) => h,
        None => {
            return Err(ArchiveError::CorruptHeader);
        },
    };

    let node_offset_wide = header.node_section_offset;
    if node_offset_wide > len as u64 - 16 {
        return Err(ArchiveError::CorruptHeader);
    }
    let node_offset = node_offset_wide as usize;

    let compressed = match read_compressed_node_header(stream, node_offset) {
        Some(c) => c,
        None => {
            return Err(ArchiveError::CorruptHeader);
        },
    };
    if compressed.data_start < 0x100 {
        // The node section is stored zstd-compressed; decoding that variant
        // is out of scope, so it is reported rather than misread as raw.
        return Err(ArchiveError::UnsupportedFeature);
    }

    let node_header = match read_node_header(stream, node_offset) {
        Some(h) => h,
        None => {
            return Err(ArchiveError::CorruptHeader);
        },
    };
    if node_header.file_size < 68 {
        return Err(ArchiveError::CorruptHeader);
    }

    let payload_start = node_offset + 68;
    let payload_len_declared = node_header.file_size - 68;
    if payload_len_declared as u64 > (len - payload_start) as u64 {
        return Err(ArchiveError::CorruptHeader);
    }
    let payload_len = payload_len_declared as usize;

    let payload = slice_subrange(stream, payload_start, payload_start + payload_len);
    assert(payload@ =~= spec_payload(stream@));
    assert(node_header == spec_node_header(stream@));
    let layout = match resolve(payload, &node_header) {
        Ok(l) => l,
        Err(e) => {
            proof {
                let s = stream@;
                assert(!header_corrupt(s));
                assert(!compressed_node(s));
                if sec_start(node_header, 13) > payload@.len() {
                    assert(!sections_fit(s));
                    let k0 = choose|k: int|
                        0 <= k < 13 && #[trigger] is_trunc_at(
                            node_header,
                            payload@.len() as nat,
                            k,
                            e,
                        );
                    assert(is_trunc_at(spec_node_header(s), spec_payload_len(s) as nat, k0, e));
                } else {
                    assert(sections_fit(s));
                    assert(spec_tail_result(s) == Err::<TailSections, ArchiveError>(e));
                }
            }
            return Err(e);
        },
    };
    Ok(ParsedArchive { header, node_header, payload_start, payload_len, layout })
}

/// Parses an archive from its bytes.
///
/// A stream that does not begin with the magic signature is rejected as
/// `NotArchiveFormat` and nothing further is looked at; the caller may hand
/// the stream to another format's parser.  Once the magic has matched, every
/// failure is an `InternalError` classified by [`internal_error_matches`].
pub fn parse(stream: &[u8]) -> (r: Result<ParsedArchive, ParseError>)
    ensures
        r == Err::<ParsedArchive, ParseError>(ParseError::NotArchiveFormat) <==> !magic_ok(
            stream@,
        ),
        r is Ok <==> magic_ok(stream@) && internal_ok(stream@),
        r matches Ok(a) ==> parsed_archive_matches(stream@, a),
        r matches Err(ParseError::InternalError(e)) ==> magic_ok(stream@)
            && internal_error_matches(stream@, e),
{
    if stream.len() < 8 {
        return Err(ParseError::NotArchiveFormat);
    }
    let magic = read_u64_at(stream, 0);
    if magic != MAGIC {
        return Err(ParseError::NotArchiveFormat);
    }
    match internal_parse(stream) {
        Ok(a) => Ok(a),
        Err(e) => Err(ParseError::InternalError(e)),
    }
}

} // verus!
