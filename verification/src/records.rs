//! Fixed-size records decoded from bytes inside a section.
//!
//! Every decoder takes the backing buffer and a byte offset, checks that the
//! record's full window lies inside the buffer, and decodes little-endian
//! fields at fixed offsets.  A window that is too short yields `None`; a
//! decoder never reads beyond its record's declared size.

use vstd::prelude::*;

use crate::le::{le_at, lemma_pow256_values, read_u16_at, read_u24_at, read_u32_at, read_u40_at,
    read_u64_at, read_u8_at};

verus! {

/// A 40-bit hash (low 5 bytes) with 24 bits of metadata (next 3 bytes).
#[derive(Clone, Copy, Debug, PartialEq, Eq, Structural)]
pub struct EntryPair {
    /// Packed 40-bit hash; always below 2^40.
    pub hash: u64,
    /// Packed 24-bit metadata; always below 2^24.
    pub meta: u32,
}

pub const ENTRY_PAIR_SIZE: usize = 0x8;

/// An [`EntryPair`] followed by a full 32-bit metadata word.
#[derive(Clone, Copy, Debug, PartialEq, Eq, Structural)]
pub struct EntryTriplet {
    /// Packed 40-bit hash; always below 2^40.
    pub hash: u64,
    /// Packed 24-bit metadata; always below 2^24.
    pub meta: u32,
    pub meta2: u32,
}

pub const ENTRY_TRIPLET_SIZE: usize = 0xc;

/// A size and an offset of one referenced payload.
#[derive(Clone, Copy, Debug, PartialEq, Eq, Structural)]
pub struct FilePair {
    pub size: u64,
    pub offset: u64,
}

pub const FILE_PAIR_SIZE: usize = 0x10;

/// A folder record: four packed hash pairs and numeric fields.
#[derive(Clone, Copy, Debug, PartialEq, Eq, Structural)]
pub struct BigHashEntry {
    pub path: EntryPair,
    pub folder: EntryPair,
    pub parent: EntryPair,
    pub hash4: EntryPair,
    pub suboffset_start: u32,
    pub num_files: u32,
    pub unk3: u32,
    pub unk4: u16,
    pub unk5: u16,
    pub unk6: u8,
    pub unk7: u8,
    pub unk8: u8,
    pub unk9: u8,
}

pub const BIG_HASH_ENTRY_SIZE: usize = 0x34;

/// A tree record: four packed hash pairs, a suboffset index and flags.
#[derive(Clone, Copy, Debug, PartialEq, Eq, Structural)]
pub struct TreeEntry {
    pub path: EntryPair,
    pub ext: EntryPair,
    pub folder: EntryPair,
    pub file: EntryPair,
    pub suboffset_index: u32,
    pub flags: u32,
}

pub const TREE_ENTRY_SIZE: usize = 0x28;

/// A grouped-file record.
#[derive(Clone, Copy, Debug, PartialEq, Eq, Structural)]
pub struct BigFileEntry {
    pub offset: u64,
    pub decomp_size: u32,
    pub comp_size: u32,
    pub suboffset_index: u32,
    pub files: u32,
    pub unk3: u32,
}

pub const BIG_FILE_ENTRY_SIZE: usize = 0x1c;

/// A single-file record.
#[derive(Clone, Copy, Debug, PartialEq, Eq, Structural)]
pub struct FileEntry {
    pub offset: u32,
    pub comp_size: u32,
    pub decomp_size: u32,
    pub flags: u32,
}

pub const FILE_ENTRY_SIZE: usize = 0x10;

/// One bucket of the file-lookup table.
#[derive(Clone, Copy, Debug, PartialEq, Eq, Structural)]
pub struct HashBucket {
    pub index: u32,
    pub num_entries: u32,
}

pub const HASH_BUCKET_SIZE: usize = 0x08;

/// The pair encoded at `off`: 5 little-endian bytes of hash, then 3 of
/// metadata, both zero-extended.
pub open spec fn pair_at(d: Seq<u8>, off: int) -> EntryPair {
    EntryPair { hash: le_at(d, off, 5) as u64, meta: le_at(d, off + 5, 3) as u32 }
}

/// The triplet encoded at `off`: a pair, then a 32-bit metadata word.
pub open spec fn triplet_at(d: Seq<u8>, off: int) -> EntryTriplet {
    EntryTriplet {
        hash: le_at(d, off, 5) as u64,
        meta: le_at(d, off + 5, 3) as u32,
        meta2: le_at(d, off + 0x8, 4) as u32,
    }
}

pub open spec fn file_pair_at(d: Seq<u8>, off: int) -> FilePair {
    FilePair { size: le_at(d, off, 8) as u64, offset: le_at(d, off + 8, 8) as u64 }
}

pub open spec fn big_hash_entry_at(d: Seq<u8>, off: int) -> BigHashEntry {
    BigHashEntry {
        path: pair_at(d, off),
        folder: pair_at(d, off + 0x08),
        parent: pair_at(d, off + 0x10),
        hash4: pair_at(d, off + 0x18),
        suboffset_start: le_at(d, off + 0x20, 4) as u32,
        num_files: le_at(d, off + 0x24, 4) as u32,
        unk3: le_at(d, off + 0x28, 4) as u32,
        unk4: le_at(d, off + 0x2c, 2) as u16,
        unk5: le_at(d, off + 0x2e, 2) as u16,
        unk6: d[off + 0x30],
        unk7: d[off + 0x31],
        unk8: d[off + 0x32],
        unk9: d[off + 0x33],
    }
}

pub open spec fn tree_entry_at(d: Seq<u8>, off: int) -> TreeEntry {
    TreeEntry {
        path: pair_at(d, off),
        ext: pair_at(d, off + 0x08),
        folder: pair_at(d, off + 0x10),
        file: pair_at(d, off + 0x18),
        suboffset_index: le_at(d, off + 0x20, 4) as u32,
        flags: le_at(d, off + 0x24, 4) as u32,
    }
}

pub open spec fn big_file_entry_at(d: Seq<u8>, off: int) -> BigFileEntry {
    BigFileEntry {
        offset: le_at(d, off, 8) as u64,
        decomp_size: le_at(d, off + 0x8, 4) as u32,
        comp_size: le_at(d, off + 0xc, 4) as u32,
        suboffset_index: le_at(d, off + 0x10, 4) as u32,
        files: le_at(d, off + 0x14, 4) as u32,
        unk3: le_at(d, off + 0x18, 4) as u32,
    }
}

pub open spec fn file_entry_at(d: Seq<u8>, off: int) -> FileEntry {
    FileEntry {
        offset: le_at(d, off, 4) as u32,
        comp_size: le_at(d, off + 0x4, 4) as u32,
        decomp_size: le_at(d, off + 0x8, 4) as u32,
        flags: le_at(d, off + 0xc, 4) as u32,
    }
}

pub open spec fn hash_bucket_at(d: Seq<u8>, off: int) -> HashBucket {
    HashBucket { index: le_at(d, off, 4) as u32, num_entries: le_at(d, off + 4, 4) as u32 }
}

/// The packed fields are genuinely narrow: a decoded hash is always below
/// 2^40 and a decoded metadata value below 2^24, because each is rebuilt
/// from exactly 5 (or 3) source bytes, zero-extended.
pub proof fn lemma_pair_field_bounds(d: Seq<u8>, off: int)
    requires
        0 <= off,
        off + ENTRY_PAIR_SIZE <= d.len(),
    ensures
        pair_at(d, off).hash < 0x100_0000_0000,
        pair_at(d, off).meta < 0x100_0000,
{
    crate::le::lemma_le_at_bound(d, off, 5);
    crate::le::lemma_le_at_bound(d, off + 5, 3);
    lemma_pow256_values();
}

/// Decodes the pair whose window is known to lie inside the buffer.
fn pair_unchecked(data: &[u8], off: usize) -> (r: EntryPair)
    requires
        off + ENTRY_PAIR_SIZE <= data@.len(),
    ensures
        r == pair_at(data@, off as int),
{
    proof {
        lemma_pow256_values();
    }
    let len = data.len();
    assert(off + 5 <= len);
    let hash = read_u40_at(data, off);
    let meta = read_u24_at(data, off + 5);
    EntryPair { hash, meta }
}

/// Decodes the 8-byte pair record at `off`, if its window fits.
pub fn read_pair(data: &[u8], off: usize) -> (r: Option<EntryPair>)
    ensures
        r is Some <==> off + ENTRY_PAIR_SIZE <= data@.len(),
        r matches Some(e) ==> e == pair_at(data@, off as int),
{
    if off <= data.len() && data.len() - off >= ENTRY_PAIR_SIZE {
        Some(pair_unchecked(data, off))
    } else {
        None
    }
}

/// Decodes the 12-byte triplet record at `off`, if its window fits.
pub fn read_triplet(data: &[u8], off: usize) -> (r: Option<EntryTriplet>)
    ensures
        r is Some <==> off + ENTRY_TRIPLET_SIZE <= data@.len(),
        r matches Some(e) ==> e == triplet_at(data@, off as int),
{
    if off <= data.len() && data.len() - off >= ENTRY_TRIPLET_SIZE {
        proof {
            lemma_pow256_values();
        }
        let hash = read_u40_at(data, off);
        let meta = read_u24_at(data, off + 5);
        let meta2 = read_u32_at(data, off + 0x8);
        Some(EntryTriplet { hash, meta, meta2 })
    } else {
        None
    }
}

/// Decodes the 16-byte size/offset record at `off`, if its window fits.
pub fn read_file_pair(data: &[u8], off: usize) -> (r: Option<FilePair>)
    ensures
        r is Some <==> off + FILE_PAIR_SIZE <= data@.len(),
        r matches Some(e) ==> e == file_pair_at(data@, off as int),
{
    if off <= data.len() && data.len() - off >= FILE_PAIR_SIZE {
        let size = read_u64_at(data, off);
        let offset = read_u64_at(data, off + 8);
        Some(FilePair { size, offset })
    } else {
        None
    }
}

/// Decodes the 52-byte folder record at `off`, if its window fits.
pub fn read_big_hash_entry(data: &[u8], off: usize) -> (r: Option<BigHashEntry>)
    ensures
        r is Some <==> off + BIG_HASH_ENTRY_SIZE <= data@.len(),
        r matches Some(e) ==> e == big_hash_entry_at(data@, off as int),
{
    if off <= data.len() && data.len() - off >= BIG_HASH_ENTRY_SIZE {
        Some(
            BigHashEntry {
                path: pair_unchecked(data, off),
                folder: pair_unchecked(data, off + 0x08),
                parent: pair_unchecked(data, off + 0x10),
                hash4: pair_unchecked(data, off + 0x18),
                suboffset_start: read_u32_at(data, off + 0x20),
                num_files: read_u32_at(data, off + 0x24),
                unk3: read_u32_at(data, off + 0x28),
                unk4: read_u16_at(data, off + 0x2c),
                unk5: read_u16_at(data, off + 0x2e),
                unk6: read_u8_at(data, off + 0x30),
                unk7: read_u8_at(data, off + 0x31),
                unk8: read_u8_at(data, off + 0x32),
                unk9: read_u8_at(data, off + 0x33),
            },
        )
    } else {
        None
    }
}

/// Decodes the 40-byte tree record at `off`, if its window fits.
pub fn read_tree_entry(data: &[u8], off: usize) -> (r: Option<TreeEntry>)
    ensures
        r is Some <==> off + TREE_ENTRY_SIZE <= data@.len(),
        r matches Some(e) ==> e == tree_entry_at(data@, off as int),
{
    if off <= data.len() && data.len() - off >= TREE_ENTRY_SIZE {
        Some(
            TreeEntry {
                path: pair_unchecked(data, off),
                ext: pair_unchecked(data, off + 0x08),
                folder: pair_unchecked(data, off + 0x10),
                file: pair_unchecked(data, off + 0x18),
                suboffset_index: read_u32_at(data, off + 0x20),
                flags: read_u32_at(data, off + 0x24),
            },
        )
    } else {
        None
    }
}

/// Decodes the 28-byte grouped-file record at `off`, if its window fits.
pub fn read_big_file_entry(data: &[u8], off: usize) -> (r: Option<BigFileEntry>)
    ensures
        r is Some <==> off + BIG_FILE_ENTRY_SIZE <= data@.len(),
        r matches Some(e) ==> e == big_file_entry_at(data@, off as int),
{
    if off <= data.len() && data.len() - off >= BIG_FILE_ENTRY_SIZE {
        Some(
            BigFileEntry {
                offset: read_u64_at(data, off),
                decomp_size: read_u32_at(data, off + 0x8),
                comp_size: read_u32_at(data, off + 0xc),
                suboffset_index: read_u32_at(data, off + 0x10),
                files: read_u32_at(data, off + 0x14),
                unk3: read_u32_at(data, off + 0x18),
            },
        )
    } else {
        None
    }
}

/// Decodes the 16-byte single-file record at `off`, if its window fits.
pub fn read_file_entry(data: &[u8], off: usize) -> (r: Option<FileEntry>)
    ensures
        r is Some <==> off + FILE_ENTRY_SIZE <= data@.len(),
        r matches Some(e) ==> e == file_entry_at(data@, off as int),
{
    if off <= data.len() && data.len() - off >= FILE_ENTRY_SIZE {
        Some(
            FileEntry {
                offset: read_u32_at(data, off),
                comp_size: read_u32_at(data, off + 0x4),
                decomp_size: read_u32_at(data, off + 0x8),
                flags: read_u32_at(data, off + 0xc),
            },
        )
    } else {
        None
    }
}

/// Decodes the 8-byte bucket record at `off`, if its window fits.
pub fn read_hash_bucket(data: &[u8], off: usize) -> (r: Option<HashBucket>)
    ensures
        r is Some <==> off + HASH_BUCKET_SIZE <= data@.len(),
        r matches Some(e) ==> e == hash_bucket_at(data@, off as int),
{
    if off <= data.len() && data.len() - off >= HASH_BUCKET_SIZE {
        let index = read_u32_at(data, off);
        let num_entries = read_u32_at(data, off + 4);
        Some(HashBucket { index, num_entries })
    } else {
        None
    }
}

} // verus!
