//! The top-level archive header and the node-section headers.
//!
//! The archive header sits at stream offset 8, right after the magic
//! signature, and carries five absolute section offsets.  At the node-section
//! offset, a 16-byte probe decides between two shapes: a `data_start` below
//! 0x100 marks a compressed node section (whose decoding is out of scope),
//! anything else means the same bytes begin a raw 68-byte node header whose
//! counts drive the section layout.

use vstd::prelude::*;

use crate::le::{le_at, lemma_pow256_values, read_u16_at, read_u32_at, read_u64_at, read_u8_at};

verus! {

/// The fixed 40-byte archive header: five absolute byte offsets.
#[derive(Clone, Copy, Debug, PartialEq, Eq, Structural)]
pub struct ArcHeader {
    pub music_file_section_offset: u64,
    pub file_section_offset: u64,
    pub music_section_offset: u64,
    pub node_section_offset: u64,
    pub unk_section_offset: u64,
}

pub const ARC_HEADER_SIZE: usize = 0x28;

/// The 16-byte probe shape of a compressed node section.
#[derive(Clone, Copy, Debug, PartialEq, Eq, Structural)]
pub struct CompressedNodeHeader {
    pub data_start: u32,
    pub decomp_size: u32,
    pub comp_size: u32,
    pub zstd_comp_size: u32,
}

pub const COMPRESSED_NODE_HEADER_SIZE: usize = 0x10;

/// The raw 68-byte node header: sixteen 32-bit counts plus three small
/// auxiliary fields.  The counts determine the length of every section of
/// the node-section buffer that follows.
#[derive(Clone, Copy, Debug, PartialEq, Eq, Structural)]
pub struct NodeHeader {
    pub file_size: u32,
    pub folder_count: u32,
    pub file_count1: u32,
    pub tree_count: u32,
    pub sub_files1_count: u32,
    pub file_lookup_count: u32,
    pub hash_folder_count: u32,
    pub file_information_count: u32,
    pub file_count2: u32,
    pub sub_files2_count: u32,
    pub unk1: u32,
    pub unk2: u32,
    pub another_hash_table_size: u8,
    pub unk3: u8,
    pub unk4: u16,
    pub movie_count: u32,
    pub part1_count: u32,
    pub part2_count: u32,
    pub music_file_count: u32,
}

pub const NODE_HEADER_SIZE: usize = 0x44;

/// The archive header encoded at `off`: five little-endian 64-bit offsets.
pub open spec fn arc_header_at(d: Seq<u8>, off: int) -> ArcHeader {
    ArcHeader {
        music_file_section_offset: le_at(d, off, 8) as u64,
        file_section_offset: le_at(d, off + 0x08, 8) as u64,
        music_section_offset: le_at(d, off + 0x10, 8) as u64,
        node_section_offset: le_at(d, off + 0x18, 8) as u64,
        unk_section_offset: le_at(d, off + 0x20, 8) as u64,
    }
}

/// The compressed-node probe encoded at `off`: four little-endian 32-bit
/// fields.
pub open spec fn compressed_node_header_at(d: Seq<u8>, off: int) -> CompressedNodeHeader {
    CompressedNodeHeader {
        data_start: le_at(d, off, 4) as u32,
        decomp_size: le_at(d, off + 0x4, 4) as u32,
        comp_size: le_at(d, off + 0x8, 4) as u32,
        zstd_comp_size: le_at(d, off + 0xc, 4) as u32,
    }
}

/// The node header encoded at `off`, fields in file order.
pub open spec fn node_header_at(d: Seq<u8>, off: int) -> NodeHeader {
    NodeHeader {
        file_size: le_at(d, off, 4) as u32,
        folder_count: le_at(d, off + 0x04, 4) as u32,
        file_count1: le_at(d, off + 0x08, 4) as u32,
        tree_count: le_at(d, off + 0x0c, 4) as u32,
        sub_files1_count: le_at(d, off + 0x10, 4) as u32,
        file_lookup_count: le_at(d, off + 0x14, 4) as u32,
        hash_folder_count: le_at(d, off + 0x18, 4) as u32,
        file_information_count: le_at(d, off + 0x1c, 4) as u32,
        file_count2: le_at(d, off + 0x20, 4) as u32,
        sub_files2_count: le_at(d, off + 0x24, 4) as u32,
        unk1: le_at(d, off + 0x28, 4) as u32,
        unk2: le_at(d, off + 0x2c, 4) as u32,
        another_hash_table_size: d[off + 0x30],
        unk3: d[off + 0x31],
        unk4: le_at(d, off + 0x32, 2) as u16,
        movie_count: le_at(d, off + 0x34, 4) as u32,
        part1_count: le_at(d, off + 0x38, 4) as u32,
        part2_count: le_at(d, off + 0x3c, 4) as u32,
        music_file_count: le_at(d, off + 0x40, 4) as u32,
    }
}

/// Decodes the 40-byte archive header at `off`, if its window fits.
pub fn read_arc_header(data: &[u8], off: usize) -> (r: Option<ArcHeader>)
    ensures
        r is Some <==> off + ARC_HEADER_SIZE <= data@.len(),
        r matches Some(h) ==> h == arc_header_at(data@, off as int),
{
    if off <= data.len() && data.len() - off >= ARC_HEADER_SIZE {
        Some(
            ArcHeader {
                music_file_section_offset: read_u64_at(data, off),
                file_section_offset: read_u64_at(data, off + 0x08),
                music_section_offset: read_u64_at(data, off + 0x10),
                node_section_offset: read_u64_at(data, off + 0x18),
                unk_section_offset: read_u64_at(data, off + 0x20),
            },
        )
    } else {
        None
    }
}

/// Decodes the 16-byte compressed-node probe at `off`, if its window fits.
pub fn read_compressed_node_header(data: &[u8], off: usize) -> (r: Option<CompressedNodeHeader>)
    ensures
        r is Some <==> off + COMPRESSED_NODE_HEADER_SIZE <= data@.len(),
        r matches Some(h) ==> h == compressed_node_header_at(data@, off as int),
{
    if off <= data.len() && data.len() - off >= COMPRESSED_NODE_HEADER_SIZE {
        Some(
            CompressedNodeHeader {
                data_start: read_u32_at(data, off),
                decomp_size: read_u32_at(data, off + 0x4),
                comp_size: read_u32_at(data, off + 0x8),
                zstd_comp_size: read_u32_at(data, off + 0xc),
            },
        )
    } else {
        None
    }
}

/// Decodes the 68-byte node header at `off`, if its window fits.
pub fn read_node_header(data: &[u8], off: usize) -> (r: Option<NodeHeader>)
    ensures
        r is Some <==> off + NODE_HEADER_SIZE <= data@.len(),
        r matches Some(h) ==> h == node_header_at(data@, off as int),
{
    if off <= data.len() && data.len() - off >= NODE_HEADER_SIZE {
        proof {
            lemma_pow256_values();
        }
        Some(
            NodeHeader {
                file_size: read_u32_at(data, off),
                folder_count: read_u32_at(data, off + 0x04),
                file_count1: read_u32_at(data, off + 0x08),
                tree_count: read_u32_at(data, off + 0x0c),
                sub_files1_count: read_u32_at(data, off + 0x10),
                file_lookup_count: read_u32_at(data, off + 0x14),
                hash_folder_count: read_u32_at(data, off + 0x18),
                file_information_count: read_u32_at(data, off + 0x1c),
                file_count2: read_u32_at(data, off + 0x20),
                sub_files2_count: read_u32_at(data, off + 0x24),
                unk1: read_u32_at(data, off + 0x28),
                unk2: read_u32_at(data, off + 0x2c),
                another_hash_table_size: read_u8_at(data, off + 0x30),
                unk3: read_u8_at(data, off + 0x31),
                unk4: read_u16_at(data, off + 0x32),
                movie_count: read_u32_at(data, off + 0x34),
                part1_count: read_u32_at(data, off + 0x38),
                part2_count: read_u32_at(data, off + 0x3c),
                music_file_count: read_u32_at(data, off + 0x40),
            },
        )
    } else {
        None
    }
}

} // verus!
