//! The section layout resolver.
//!
//! The node-section buffer packs thirteen variable-length tables
//! back-to-back; their lengths are never stored as offsets but reconstructed
//! as entry size times a count from the node header, so the resolver is one
//! forward pass: section `k + 1` begins exactly where section `k` ends.
//! After the thirteenth section a bucket record is read *from the buffer
//! itself* and gives the length of the bucket table — the one boundary that
//! is data-derived rather than header-derived — followed by the file-lookup
//! table and a trailing remainder.  Any section whose computed length
//! exceeds what remains of the buffer stops the walk with a truncation
//! report; nothing is ever read past the end of the buffer.

use vstd::prelude::*;

use crate::error::{ArchiveError, SectionId};
use crate::headers::NodeHeader;
use crate::le::read_u32_at;
use crate::records::{hash_bucket_at, HashBucket};

verus! {

/// A contiguous byte range inside the node-section buffer.
#[derive(Clone, Copy, Debug, PartialEq, Eq, Structural)]
pub struct SectionRange {
    pub start: usize,
    pub len: usize,
}

/// The thirteen header-driven sections, in file order, and the cursor
/// position after the last of them.
#[derive(Clone, Copy, Debug, PartialEq, Eq, Structural)]
pub struct NodeSections {
    pub bulkfile_category_info: SectionRange,
    pub bulkfile_hash_lookup: SectionRange,
    pub bulkfiles_by_name: SectionRange,
    pub bulkfile_lookup_to_fileidx: SectionRange,
    pub file_pairs: SectionRange,
    pub another_hash_table: SectionRange,
    pub big_hashes: SectionRange,
    pub big_files: SectionRange,
    pub folder_hash_lookup: SectionRange,
    pub trees: SectionRange,
    pub sub_files1: SectionRange,
    pub sub_files2: SectionRange,
    pub folder_to_big_hash: SectionRange,
    pub end: usize,
}

/// The data-driven rest of the buffer: the bucket table whose length comes
/// from the bucket record at its own start, the file-lookup table, and the
/// trailing remainder.
#[derive(Clone, Copy, Debug, PartialEq, Eq, Structural)]
pub struct TailSections {
    pub bucket: HashBucket,
    pub file_lookup_buckets: SectionRange,
    pub file_lookup: SectionRange,
    pub numbers: SectionRange,
}

/// The full resolved layout of one node-section buffer.
#[derive(Clone, Copy, Debug, PartialEq, Eq, Structural)]
pub struct SectionLayout {
    pub sections: NodeSections,
    pub tail: TailSections,
}

/// The fixed per-entry size of section `k`, in file order.
pub open spec fn sec_entry_size(k: int) -> nat {
    if k == 0 {
        0xc  // bulkfile_category_info: triplets
    } else if k == 1 {
        0x8  // bulkfile_hash_lookup: pairs
    } else if k == 2 {
        0xc  // bulkfiles_by_name: triplets
    } else if k == 3 {
        0x4  // bulkfile_lookup_to_fileidx: 32-bit indices
    } else if k == 4 {
        0x10  // file_pairs
    } else if k == 5 {
        0xc  // another_hash_table: triplets
    } else if k == 6 {
        0x34  // big_hashes
    } else if k == 7 {
        0x1c  // big_files
    } else if k == 8 {
        0x8  // folder_hash_lookup: pairs
    } else if k == 9 {
        0x28  // trees
    } else if k == 10 {
        0x10  // sub_files1
    } else if k == 11 {
        0x10  // sub_files2
    } else {
        0x8  // folder_to_big_hash: pairs
    }
}

/// The node-header count that sizes section `k`.
pub open spec fn sec_count(h: NodeHeader, k: int) -> nat {
    if k == 0 {
        h.movie_count as nat
    } else if k == 1 {
        h.part1_count as nat
    } else if k == 2 {
        h.part1_count as nat
    } else if k == 3 {
        h.part2_count as nat
    } else if k == 4 {
        h.music_file_count as nat
    } else if k == 5 {
        h.another_hash_table_size as nat
    } else if k == 6 {
        h.folder_count as nat
    } else if k == 7 {
        h.file_count1 as nat + h.file_count2 as nat
    } else if k == 8 {
        h.hash_folder_count as nat
    } else if k == 9 {
        h.tree_count as nat
    } else if k == 10 {
        h.sub_files1_count as nat
    } else if k == 11 {
        h.sub_files2_count as nat
    } else {
        h.folder_count as nat
    }
}

/// The byte length of section `k`.
pub open spec fn sec_len(h: NodeHeader, k: int) -> nat {
    sec_entry_size(k) * sec_count(h, k)
}

/// The start offset of section `k`: the sum of all earlier lengths.
/// `sec_start(h, 13)` is the cursor position after the last section.
pub open spec fn sec_start(h: NodeHeader, k: int) -> nat
    decreases k,
{
    if k <= 0 {
        0
    } else {
        sec_start(h, k - 1) + sec_len(h, k - 1)
    }
}

/// The name of section `k`.
pub open spec fn sec_id(k: int) -> SectionId {
    if k == 0 {
        SectionId::BulkfileCategoryInfo
    } else if k == 1 {
        SectionId::BulkfileHashLookup
    } else if k == 2 {
        SectionId::BulkfilesByName
    } else if k == 3 {
        SectionId::BulkfileLookupToFileidx
    } else if k == 4 {
        SectionId::FilePairs
    } else if k == 5 {
        SectionId::AnotherHashTable
    } else if k == 6 {
        SectionId::BigHashes
    } else if k == 7 {
        SectionId::BigFiles
    } else if k == 8 {
        SectionId::FolderHashLookup
    } else if k == 9 {
        SectionId::Trees
    } else if k == 10 {
        SectionId::SubFiles1
    } else if k == 11 {
        SectionId::SubFiles2
    } else {
        SectionId::FolderToBigHash
    }
}

/// The layout of the thirteen sections for header `h`: section `k` starts at
/// `sec_start(h, k)` and is `sec_len(h, k)` bytes long.
pub open spec fn spec_sections(h: NodeHeader) -> NodeSections {
    NodeSections {
        bulkfile_category_info: spec_range(h, 0),
        bulkfile_hash_lookup: spec_range(h, 1),
        bulkfiles_by_name: spec_range(h, 2),
        bulkfile_lookup_to_fileidx: spec_range(h, 3),
        file_pairs: spec_range(h, 4),
        another_hash_table: spec_range(h, 5),
        big_hashes: spec_range(h, 6),
        big_files: spec_range(h, 7),
        folder_hash_lookup: spec_range(h, 8),
        trees: spec_range(h, 9),
        sub_files1: spec_range(h, 10),
        sub_files2: spec_range(h, 11),
        folder_to_big_hash: spec_range(h, 12),
        end: sec_start(h, 13) as usize,
    }
}

pub open spec fn spec_range(h: NodeHeader, k: int) -> SectionRange {
    SectionRange { start: sec_start(h, k) as usize, len: sec_len(h, k) as usize }
}

/// The thirteen ranges of a layout in file order.
pub open spec fn section_ranges(s: NodeSections) -> Seq<SectionRange> {
    seq![
        s.bulkfile_category_info,
        s.bulkfile_hash_lookup,
        s.bulkfiles_by_name,
        s.bulkfile_lookup_to_fileidx,
        s.file_pairs,
        s.another_hash_table,
        s.big_hashes,
        s.big_files,
        s.folder_hash_lookup,
        s.trees,
        s.sub_files1,
        s.sub_files2,
        s.folder_to_big_hash,
    ]
}

/// `e` is the truncation report of section `k` against a buffer of `len`
/// bytes: everything before `k` fits, `k` itself does not.
pub open spec fn is_trunc_at(h: NodeHeader, len: nat, k: int, e: ArchiveError) -> bool {
    &&& sec_start(h, k) <= len
    &&& sec_start(h, k) + sec_len(h, k) > len
    &&& e == (ArchiveError::TruncatedData {
        section: sec_id(k),
        needed: sec_len(h, k) as u64,
        available: (len - sec_start(h, k)) as u64,
    })
}

/// Section starts never decrease along the file order.
pub proof fn lemma_sec_start_mono(h: NodeHeader, a: int, b: int)
    requires
        0 <= a <= b,
    ensures
        sec_start(h, a) <= sec_start(h, b),
    decreases b - a,
{
    if a < b {
        lemma_sec_start_mono(h, a, b - 1);
    }
}

/// Advances the cursor over one section of `entry_size`-byte entries.
fn take_section(buffer_len: usize, cursor: usize, entry_size: u64, count: u64, id: SectionId) -> (r:
    Result<(SectionRange, usize), ArchiveError>)
    requires
        cursor <= buffer_len,
        entry_size <= 0x34,
        count < 0x2_0000_0000,
    ensures
        r is Ok <==> cursor + entry_size * count <= buffer_len,
        r matches Ok((rg, c2)) ==> rg.start == cursor && rg.len == entry_size * count && c2
            == cursor + entry_size * count && c2 <= buffer_len,
        r matches Err(e) ==> e == (ArchiveError::TruncatedData {
            section: id,
            needed: (entry_size * count) as u64,
            available: (buffer_len - cursor) as u64,
        }),
{
    proof {
        assert(entry_size * count <= 0x34 * 0x2_0000_0000) by (nonlinear_arith)
            requires
                entry_size <= 0x34,
                count < 0x2_0000_0000,
        ;
    }
    let needed: u64 = entry_size * count;
    let available: u64 = (buffer_len - cursor) as u64;
    if needed > available {
        Err(ArchiveError::TruncatedData { section: id, needed, available })
    } else {
        let len = needed as usize;
        Ok((SectionRange { start: cursor, len }, cursor + len))
    }
}

/// Slices the node-section buffer into the thirteen header-driven sections.
///
/// Succeeds exactly when all thirteen declared lengths fit in the buffer,
/// and then returns the layout `spec_sections(*header)`, whose sections tile
/// the buffer front with no gap and no overlap.  Fails otherwise with a
/// truncation report naming the first section that overflows.
pub fn resolve_sections(buffer: &[u8], header: &NodeHeader) -> (r: Result<
    NodeSections,
    ArchiveError,
>)
    ensures
        r is Ok <==> sec_start(*header, 13) <= buffer@.len(),
        r matches Ok(s) ==> s == spec_sections(*header),
        r matches Err(e) ==> exists|k: int|
            0 <= k < 13 && #[trigger] is_trunc_at(*header, buffer@.len() as nat, k, e),
{
    let ghost h = *header;
    let blen = buffer.len();
    let ghost glen = buffer@.len() as nat;

    let (s0, cursor) = match take_section(blen, 0, 0xc, header.movie_count as u64,
        SectionId::BulkfileCategoryInfo) {
        Ok(p) => p,
        Err(e) => {
            proof {
                assert(is_trunc_at(h, glen, 0, e));
                lemma_sec_start_mono(h, 1, 13);
            }
            return Err(e);
        },
    };
    assert(cursor == sec_start(h, 1));

    let (s1, cursor) = match take_section(blen, cursor, 0x8, header.part1_count as u64,
        SectionId::BulkfileHashLookup) {
        Ok(p) => p,
        Err(e) => {
            proof {
                assert(is_trunc_at(h, glen, 1, e));
                lemma_sec_start_mono(h, 2, 13);
            }
            return Err(e);
        },
    };
    assert(cursor == sec_start(h, 2));

    let (s2, cursor) = match take_section(blen, cursor, 0xc, header.part1_count as u64,
        SectionId::BulkfilesByName) {
        Ok(p) => p,
        Err(e) => {
            proof {
                assert(is_trunc_at(h, glen, 2, e));
                lemma_sec_start_mono(h, 3, 13);
            }
            return Err(e);
        },
    };
    assert(cursor == sec_start(h, 3));

    let (s3, cursor) = match take_section(blen, cursor, 0x4, header.part2_count as u64,
        SectionId::BulkfileLookupToFileidx) {
        Ok(p) => p,
        Err(e) => {
            proof {
                assert(is_trunc_at(h, glen, 3, e));
                lemma_sec_start_mono(h, 4, 13);
            }
            return Err(e);
        },
    };
    assert(cursor == sec_start(h, 4));

    let (s4, cursor) = match take_section(blen, cursor, 0x10, header.music_file_count as u64,
        SectionId::FilePairs) {
        Ok(p) => p,
        Err(e) => {
            proof {
                assert(is_trunc_at(h, glen, 4, e));
                lemma_sec_start_mono(h, 5, 13);
            }
            return Err(e);
        },
    };
    assert(cursor == sec_start(h, 5));

    let (s5, cursor) = match take_section(blen, cursor, 0xc, header.another_hash_table_size as u64,
        SectionId::AnotherHashTable) {
        Ok(p) => p,
        Err(e) => {
            proof {
                assert(is_trunc_at(h, glen, 5, e));
                lemma_sec_start_mono(h, 6, 13);
            }
            return Err(e);
        },
    };
    assert(cursor == sec_start(h, 6));

    let (s6, cursor) = match take_section(blen, cursor, 0x34, header.folder_count as u64,
        SectionId::BigHashes) {
        Ok(p) => p,
        Err(e) => {
            proof {
                assert(is_trunc_at(h, glen, 6, e));
                lemma_sec_start_mono(h, 7, 13);
            }
            return Err(e);
        },
    };
    assert(cursor == sec_start(h, 7));

    let (s7, cursor) = match take_section(blen, cursor, 0x1c, header.file_count1 as u64
        + header.file_count2 as u64, SectionId::BigFiles) {
        Ok(p) => p,
        Err(e) => {
            proof {
                assert(is_trunc_at(h, glen, 7, e));
                lemma_sec_start_mono(h, 8, 13);
            }
            return Err(e);
        },
    };
    assert(cursor == sec_start(h, 8));

    let (s8, cursor) = match take_section(blen, cursor, 0x8, header.hash_folder_count as u64,
        SectionId::FolderHashLookup) {
        Ok(p) => p,
        Err(e) => {
            proof {
                assert(is_trunc_at(h, glen, 8, e));
                lemma_sec_start_mono(h, 9, 13);
            }
            return Err(e);
        },
    };
    assert(cursor == sec_start(h, 9));

    let (s9, cursor) = match take_section(blen, cursor, 0x28, header.tree_count as u64,
        SectionId::Trees) {
        Ok(p) => p,
        Err(e) => {
            proof {
                assert(is_trunc_at(h, glen, 9, e));
                lemma_sec_start_mono(h, 10, 13);
            }
            return Err(e);
        },
    };
    assert(cursor == sec_start(h, 10));

    let (s10, cursor) = match take_section(blen, cursor, 0x10, header.sub_files1_count as u64,
        SectionId::SubFiles1) {
        Ok(p) => p,
        Err(e) => {
            proof {
                assert(is_trunc_at(h, glen, 10, e));
                lemma_sec_start_mono(h, 11, 13);
            }
            return Err(e);
        },
    };
    assert(cursor == sec_start(h, 11));

    let (s11, cursor) = match take_section(blen, cursor, 0x10, header.sub_files2_count as u64,
        SectionId::SubFiles2) {
        Ok(p) => p,
        Err(e) => {
            proof {
                assert(is_trunc_at(h, glen, 11, e));
                lemma_sec_start_mono(h, 12, 13);
            }
            return Err(e);
        },
    };
    assert(cursor == sec_start(h, 12));

    let (s12, cursor) = match take_section(blen, cursor, 0x8, header.folder_count as u64,
        SectionId::FolderToBigHash) {
        Ok(p) => p,
        Err(e) => {
            proof {
                assert(is_trunc_at(h, glen, 12, e));
            }
            return Err(e);
        },
    };
    assert(cursor == sec_start(h, 13));

    Ok(
        NodeSections {
            bulkfile_category_info: s0,
            bulkfile_hash_lookup: s1,
            bulkfiles_by_name: s2,
            bulkfile_lookup_to_fileidx: s3,
            file_pairs: s4,
            another_hash_table: s5,
            big_hashes: s6,
            big_files: s7,
            folder_hash_lookup: s8,
            trees: s9,
            sub_files1: s10,
            sub_files2: s11,
            folder_to_big_hash: s12,
            end: cursor,
        },
    )
}

/// The tail layout of the buffer `p` from `start` on: the bucket record read
/// at `start` sizes the bucket table at `8 * (num_entries + 1)` bytes, the
/// file-lookup table holds `file_lookup_count` pairs, and the remainder is
/// the trailing numbers region.
pub open spec fn spec_resolve_tail(h: NodeHeader, p: Seq<u8>, start: int) -> Result<
    TailSections,
    ArchiveError,
>
    recommends
        0 <= start <= p.len(),
{
    let len = p.len() as int;
    if len - start < 8 {
        Err(
            ArchiveError::TruncatedData {
                section: SectionId::FileLookupBuckets,
                needed: 8,
                available: (len - start) as u64,
            },
        )
    } else {
        let b = hash_bucket_at(p, start);
        let bneed = 8 * (b.num_entries as int + 1);
        if bneed > len - start {
            Err(
                ArchiveError::TruncatedData {
                    section: SectionId::FileLookupBuckets,
                    needed: bneed as u64,
                    available: (len - start) as u64,
                },
            )
        } else {
            let fl_start = start + bneed;
            let fl_need = 8 * (h.file_lookup_count as int);
            if fl_need > len - fl_start {
                Err(
                    ArchiveError::TruncatedData {
                        section: SectionId::FileLookup,
                        needed: fl_need as u64,
                        available: (len - fl_start) as u64,
                    },
                )
            } else {
                let n_start = fl_start + fl_need;
                Ok(
                    TailSections {
                        bucket: b,
                        file_lookup_buckets: SectionRange {
                            start: start as usize,
                            len: bneed as usize,
                        },
                        file_lookup: SectionRange {
                            start: fl_start as usize,
                            len: fl_need as usize,
                        },
                        numbers: SectionRange {
                            start: n_start as usize,
                            len: (len - n_start) as usize,
                        },
                    },
                )
            }
        }
    }
}

/// Resolves the data-driven tail of the buffer, starting where the
/// thirteenth section ended.  This is the one resolver step that must read a
/// record from the buffer before it can compute the next boundary.
pub fn resolve_tail(buffer: &[u8], header: &NodeHeader, start: usize) -> (r: Result<
    TailSections,
    ArchiveError,
>)
    requires
        start <= buffer@.len(),
    ensures
        r == spec_resolve_tail(*header, buffer@, start as int),
{
    let len = buffer.len();
    let available: u64 = (len - start) as u64;
    if available < 8 {
        return Err(
            ArchiveError::TruncatedData {
                section: SectionId::FileLookupBuckets,
                needed: 8,
                available,
            },
        );
    }
    let index = read_u32_at(buffer, start);
    let num_entries = read_u32_at(buffer, start + 4);
    let bucket = HashBucket { index, num_entries };
    assert(bucket == hash_bucket_at(buffer@, start as int));

    let bneed: u64 = 8 * (num_entries as u64 + 1);
    if bneed > available {
        return Err(
            ArchiveError::TruncatedData {
                section: SectionId::FileLookupBuckets,
                needed: bneed,
                available,
            },
        );
    }
    let fl_start: usize = start + bneed as usize;
    let fl_available: u64 = (len - fl_start) as u64;
    let fl_need: u64 = 8 * (header.file_lookup_count as u64);
    if fl_need > fl_available {
        return Err(
            ArchiveError::TruncatedData {
                section: SectionId::FileLookup,
                needed: fl_need,
                available: fl_available,
            },
        );
    }
    let n_start: usize = fl_start + fl_need as usize;
    Ok(
        TailSections {
            bucket,
            file_lookup_buckets: SectionRange { start, len: bneed as usize },
            file_lookup: SectionRange { start: fl_start, len: fl_need as usize },
            numbers: SectionRange { start: n_start, len: len - n_start },
        },
    )
}

/// Resolves the whole layout of a node-section buffer: the thirteen
/// header-driven sections, then the data-driven tail.
pub fn resolve(buffer: &[u8], header: &NodeHeader) -> (r: Result<SectionLayout, ArchiveError>)
    ensures
        r is Ok <==> sec_start(*header, 13) <= buffer@.len() && spec_resolve_tail(
            *header,
            buffer@,
            sec_start(*header, 13) as int,
        ) is Ok,
        r matches Ok(l) ==> l.sections == spec_sections(*header) && spec_resolve_tail(
            *header,
            buffer@,
            sec_start(*header, 13) as int,
        ) == Ok::<TailSections, ArchiveError>(l.tail),
        r matches Err(e) ==> (sec_start(*header, 13) > buffer@.len() ==> exists|k: int|
            0 <= k < 13 && #[trigger] is_trunc_at(*header, buffer@.len() as nat, k, e)),
        r matches Err(e) ==> (sec_start(*header, 13) <= buffer@.len() ==> spec_resolve_tail(
            *header,
            buffer@,
            sec_start(*header, 13) as int,
        ) == Err::<TailSections, ArchiveError>(e)),
{
    let blen = buffer.len();
    let sections = match resolve_sections(buffer, header) {
        Ok(s) => s,
        Err(e) => {
            return Err(e);
        },
    };
    assert(sections.end as nat == sec_start(*header, 13));
    let tail = match resolve_tail(buffer, header, sections.end) {
        Ok(t) => t,
        Err(e) => {
            return Err(e);
        },
    };
    Ok(SectionLayout { sections, tail })
}

/// The sections returned by a successful resolution tile the front of the
/// buffer exactly: the first starts at offset zero, each next starts where
/// the previous ends, and when the declared lengths sum to the whole buffer
/// length the final cursor consumes it entirely — no gaps, no overlaps.
pub proof fn lemma_sections_partition(h: NodeHeader, len: nat)
    requires
        sec_start(h, 13) <= len,
        len <= usize::MAX,
    ensures
        ({
            let rs = section_ranges(spec_sections(h));
            &&& rs.len() == 13
            &&& rs[0].start == 0
            &&& forall|k: int|
                0 < k < 13 ==> #[trigger] rs[k].start == rs[k - 1].start + rs[k - 1].len
            &&& spec_sections(h).end == rs[12].start + rs[12].len
            &&& (sec_start(h, 13) == len ==> spec_sections(h).end == len)
        }),
{
    let rs = section_ranges(spec_sections(h));
    assert forall|k: int| 0 <= k < 13 implies #[trigger] rs[k] == spec_range(h, k) by {}
    assert forall|k: int| 0 <= k <= 13 implies #[trigger] sec_start(h, k) <= len by {
        lemma_sec_start_mono(h, k, 13);
    }
    assert forall|k: int| 0 < k < 13 implies #[trigger] rs[k].start == rs[k - 1].start + rs[k
        - 1].len by {
        assert(sec_start(h, k) == sec_start(h, k - 1) + sec_len(h, k - 1));
    }
}

/// A truncation report always names the *first* section that overflows:
/// whenever section `k` is the reported one, every earlier section fit
/// entirely within the buffer.
pub proof fn lemma_trunc_is_first(h: NodeHeader, len: nat, k: int, j: int)
    requires
        0 <= j < k < 13,
        sec_start(h, k) <= len,
    ensures
        sec_start(h, j) + sec_len(h, j) <= len,
{
    assert(sec_start(h, j) + sec_len(h, j) == sec_start(h, j + 1));
    lemma_sec_start_mono(h, j + 1, k);
}

/// With every count of the node header zero, all thirteen sections are
/// empty and the resolver's cursor never moves from the buffer start.
pub proof fn lemma_zero_counts(h: NodeHeader)
    requires
        h.movie_count == 0,
        h.part1_count == 0,
        h.part2_count == 0,
        h.music_file_count == 0,
        h.another_hash_table_size == 0,
        h.folder_count == 0,
        h.file_count1 == 0,
        h.file_count2 == 0,
        h.hash_folder_count == 0,
        h.tree_count == 0,
        h.sub_files1_count == 0,
        h.sub_files2_count == 0,
    ensures
        forall|k: int| 0 <= k < 13 ==> #[trigger] sec_len(h, k) == 0,
        forall|k: int| 0 <= k <= 13 ==> #[trigger] sec_start(h, k) == 0,
{
    assert forall|k: int| 0 <= k < 13 implies #[trigger] sec_len(h, k) == 0 by {
        assert(sec_count(h, k) == 0);
    }
    assert forall|k: int| 0 <= k <= 13 implies #[trigger] sec_start(h, k) == 0 by {
        lemma_sec_start_zero(h, k);
    }
}

proof fn lemma_sec_start_zero(h: NodeHeader, k: int)
    requires
        0 <= k <= 13,
        forall|j: int| 0 <= j < 13 ==> #[trigger] sec_len(h, j) == 0,
    ensures
        sec_start(h, k) == 0,
    decreases k,
{
    if k > 0 {
        lemma_sec_start_zero(h, k - 1);
    }
}

} // verus!
